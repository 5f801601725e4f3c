//! Discovery: configuration decoding, repository records, and the discovery
//! traversal.

use yummy::repository::{repositories_from_config, Repository, RepositoryList};
use yummy::strutil::{parse_u64, path_ends_with_component, str_ends_with, str_eq};
use yummy::walk::FsEntry;

fn file(path: &str) -> FsEntry {
    FsEntry { path: String::from(path), is_dir: false }
}

fn dir(path: &str) -> FsEntry {
    FsEntry { path: String::from(path), is_dir: true }
}

#[test]
fn discovery_yields_every_section_in_order() {
    let mut disc = RepositoryList::new(String::from("/etc/yum.repos.d"), None);
    let root = disc.next_dir().expect("root must be pending");
    assert_eq!(root, "/etc/yum.repos.d");

    let listing = vec![
        file("/etc/yum.repos.d/a.repo"),
        file("/etc/yum.repos.d/notes.txt"),
        file("/etc/yum.repos.d/b.repo"),
        dir("/etc/yum.repos.d/sub"),
    ];
    let files = disc.on_listing(&listing);
    assert_eq!(files, vec![
        String::from("/etc/yum.repos.d/a.repo"),
        String::from("/etc/yum.repos.d/b.repo"),
    ]);

    let text_a = "[base]\nname = Base\nenabled = 1\n[extras]\nenabled = 0\n";
    let text_b = "[updates]\nbaseurl = http://example/updates\n";
    let mut repos: Vec<Repository> = disc.on_config_text(text_a);
    repos.extend(disc.on_config_text(text_b));

    assert_eq!(repos.len(), 3);
    assert_eq!(repos[0].tag, "base");
    assert_eq!(repos[0].name.as_deref(), Some("Base"));
    assert_eq!(repos[0].enabled, Some(1));
    assert_eq!(repos[1].tag, "extras");
    assert_eq!(repos[1].enabled, Some(0));
    assert_eq!(repos[2].tag, "updates");
    assert_eq!(repos[2].base_url.as_deref(), Some("http://example/updates"));

    // the subdirectory pushed by the listing is visited next, depth-first
    let next = disc.next_dir().expect("subdirectory must be pending");
    assert_eq!(next, "/etc/yum.repos.d/sub");
    assert!(disc.next_dir().is_none());
}

#[test]
fn discovery_filter_restricts_to_one_file() {
    let mut disc = RepositoryList::new(
        String::from("/etc/yum.repos.d"),
        Some(String::from("b.repo")),
    );
    disc.next_dir().unwrap();
    let listing = vec![
        file("/etc/yum.repos.d/a.repo"),
        file("/etc/yum.repos.d/b.repo"),
    ];
    let files = disc.on_listing(&listing);
    assert_eq!(files, vec![String::from("/etc/yum.repos.d/b.repo")]);
}

#[test]
fn filter_matches_the_file_name_not_a_name_fragment() {
    let mut disc = RepositoryList::new(
        String::from("/etc/yum.repos.d"),
        Some(String::from("b.repo")),
    );
    disc.next_dir().unwrap();
    // `ab.repo` ends with the characters of `b.repo` but is another file
    let files = disc.on_listing(&vec![
        file("/etc/yum.repos.d/ab.repo"),
        file("/etc/yum.repos.d/b.repo"),
    ]);
    assert_eq!(files, vec![String::from("/etc/yum.repos.d/b.repo")]);
}

#[test]
fn discovery_skips_malformed_file_and_continues() {
    let mut disc = RepositoryList::new(String::from("/etc/yum.repos.d"), None);
    disc.next_dir().unwrap();
    disc.on_listing(&vec![
        file("/etc/yum.repos.d/bad.repo"),
        file("/etc/yum.repos.d/good.repo"),
    ]);
    let none = disc.on_config_text("[unclosed\n");
    assert!(none.is_empty());
    let good = disc.on_config_text("[ok]\n");
    assert_eq!(good.len(), 1);
    assert_eq!(good[0].tag, "ok");
}

#[test]
fn root_listing_failure_is_fatal_later_ones_are_not() {
    let mut disc = RepositoryList::new(String::from("/etc/yum.repos.d"), None);
    assert!(disc.listing_error_fatal());
    disc.next_dir().unwrap();
    disc.on_listing(&vec![dir("/etc/yum.repos.d/sub")]);
    assert!(!disc.listing_error_fatal());
}

#[test]
fn is_enabled_absent_or_one() {
    let base = repositories_from_config("[r]\n").unwrap();
    assert!(base[0].is_enabled());

    let one = repositories_from_config("[r]\nenabled = 1\n").unwrap();
    assert!(one[0].is_enabled());

    let zero = repositories_from_config("[r]\nenabled = 0\n").unwrap();
    assert!(!zero[0].is_enabled());

    let two = repositories_from_config("[r]\nenabled = 2\n").unwrap();
    assert!(!two[0].is_enabled());
}

#[test]
fn every_recognized_key_feeds_its_field() {
    let text = "[full]\nname = Full\nenabled = 1\nmirrorlist = http://m\nbaseurl = http://b\nsslcacert = /ca\nsslclientcert = /cc\nsslverify = 0\nmetadataexpire = 300\nenablemetadata = 1\ngpgcheck = 1\ngpgkey = /k\nunknownkey = ignored\n";
    let repos = repositories_from_config(text).unwrap();
    assert_eq!(repos.len(), 1);
    let r = &repos[0];
    assert_eq!(r.tag, "full");
    assert_eq!(r.name.as_deref(), Some("Full"));
    assert_eq!(r.enabled, Some(1));
    assert_eq!(r.mirror_list.as_deref(), Some("http://m"));
    assert_eq!(r.base_url.as_deref(), Some("http://b"));
    assert_eq!(r.ssl_ca_cert.as_deref(), Some("/ca"));
    assert_eq!(r.ssl_client_cert.as_deref(), Some("/cc"));
    assert_eq!(r.ssl_verify, Some(0));
    assert_eq!(r.metadata_expire, Some(300));
    assert_eq!(r.enable_metadata, Some(1));
    assert_eq!(r.gpg_check, Some(1));
    assert_eq!(r.gpg_key.as_deref(), Some("/k"));
}

#[test]
fn section_names_keep_their_case() {
    let repos = repositories_from_config("[Base]\n[BASE]\n").unwrap();
    assert_eq!(repos.len(), 2);
    assert_eq!(repos[0].tag, "Base");
    assert_eq!(repos[1].tag, "BASE");
}

#[test]
fn malformed_ini_is_a_decode_error() {
    assert!(repositories_from_config("[unclosed\n").is_err());
}

#[test]
fn non_integer_enabled_is_a_decode_error() {
    assert!(repositories_from_config("[r]\nenabled = yes\n").is_err());
    assert!(repositories_from_config("[r]\ngpgcheck = 1x\n").is_err());
}

#[test]
fn integer_overflow_is_a_decode_error() {
    assert!(repositories_from_config("[r]\nenabled = 99999999999999999999\n").is_err());
    let max = repositories_from_config("[r]\nmetadataexpire = 18446744073709551615\n").unwrap();
    assert_eq!(max[0].metadata_expire, Some(u64::MAX));
}

#[test]
fn parse_u64_accepts_plain_numerals_only() {
    assert_eq!(parse_u64("0"), Some(0));
    assert_eq!(parse_u64("123"), Some(123));
    assert_eq!(parse_u64("0007"), Some(7));
    assert_eq!(parse_u64("18446744073709551615"), Some(u64::MAX));
    assert_eq!(parse_u64("18446744073709551616"), None);
    assert_eq!(parse_u64(""), None);
    assert_eq!(parse_u64("+5"), None);
    assert_eq!(parse_u64(" 5"), None);
    assert_eq!(parse_u64("5a"), None);
}

#[test]
fn string_helpers() {
    assert!(str_eq("abc", "abc"));
    assert!(!str_eq("abc", "abd"));
    assert!(!str_eq("abc", "ab"));
    assert!(str_ends_with("/cache/repodata/primary.xml", "primary.xml"));
    assert!(str_ends_with("base", "base"));
    assert!(!str_ends_with("primary.xml.gz", "primary.xml"));
    assert!(!str_ends_with("xml", "primary.xml"));
    assert!(path_ends_with_component("/cache/updates", "updates"));
    assert!(path_ends_with_component("updates", "updates"));
    assert!(path_ends_with_component("/cache/x86_64/base", "x86_64/base"));
    assert!(!path_ends_with_component("/cache/updates", "dates"));
    assert!(!path_ends_with_component("/a/notprimary.xml", "primary.xml"));
    assert!(path_ends_with_component("/a/primary.xml", "primary.xml"));
}

#[test]
fn traversal_is_depth_first_in_enumeration_order() {
    let mut disc = RepositoryList::new(String::from("/root"), None);
    assert_eq!(disc.next_dir().unwrap(), "/root");
    disc.on_listing(&vec![dir("/root/one"), dir("/root/two")]);
    assert_eq!(disc.next_dir().unwrap(), "/root/one");
    disc.on_listing(&vec![dir("/root/one/inner")]);
    // the child of "one" comes before its later sibling "two"
    assert_eq!(disc.next_dir().unwrap(), "/root/one/inner");
    disc.on_listing(&vec![]);
    assert_eq!(disc.next_dir().unwrap(), "/root/two");
    disc.on_listing(&vec![]);
    assert!(disc.next_dir().is_none());
}
