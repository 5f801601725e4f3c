//! Scanning: the single-repository scan and the whole-cache aggregate scan.

use yummy::error::DecodeError;
use yummy::package::{
    Package, PackageChecksum, PackageFormat, PackageLocation, PackageSize, PackageTime,
    PackageVersion, Repo,
};
use yummy::package_list::PackageList;
use yummy::repository::repositories_from_config;
use yummy::scan::{CacheAggregateScanner, RepositoryPackageScanner};
use yummy::walk::FsEntry;

fn file(path: &str) -> FsEntry {
    FsEntry { path: String::from(path), is_dir: false }
}

fn dir(path: &str) -> FsEntry {
    FsEntry { path: String::from(path), is_dir: true }
}

fn empty_format() -> PackageFormat {
    PackageFormat {
        license: None,
        group: None,
        build_host: None,
        source_rpm: None,
        header_range: None,
        provides: Vec::new(),
        requires: Vec::new(),
    }
}

fn pkg(name: &str, ver: &str, rel: &str, arch: &str) -> Package {
    Package {
        package_type: Some(String::from("rpm")),
        name: String::from(name),
        arch: String::from(arch),
        version: PackageVersion { epoch: 0, rel: String::from(rel), ver: String::from(ver) },
        checksum: PackageChecksum {
            pkgid: String::from("YES"),
            checksum_type: String::from("sha256"),
            value: String::from("0f1e2d3c4b5a"),
        },
        summary: String::from("a package"),
        description: String::from("a longer description"),
        url: String::from("http://example"),
        time: PackageTime { build: 1, file: 2 },
        size: PackageSize { archive: 10, installed: 20, package: String::from("30") },
        location: PackageLocation { href: String::from("pkg.rpm") },
        format: empty_format(),
    }
}

#[test]
fn version_renders_ver_dash_rel() {
    let v = PackageVersion { epoch: 0, ver: String::from("1.2.3"), rel: String::from("1") };
    assert_eq!(v.to_string(), "1.2.3-1");
}

#[test]
fn scan_yields_the_matching_subtrees_document_in_order() {
    let mut scan = RepositoryPackageScanner::new(
        String::from("updates"),
        String::from("/cache"),
    );
    assert_eq!(scan.next_dir().unwrap(), "/cache");
    // the tag directory wins as soon as it is listed
    assert!(scan.on_listing(&vec![dir("/cache/updates"), dir("/cache/other")]).is_none());
    assert_eq!(scan.next_dir().unwrap(), "/cache/updates");
    assert!(scan.on_listing(&vec![dir("/cache/updates/repodata")]).is_none());
    assert_eq!(scan.next_dir().unwrap(), "/cache/updates/repodata");
    let doc = scan
        .on_listing(&vec![
            file("/cache/updates/repodata/other.xml"),
            file("/cache/updates/repodata/primary.xml"),
        ])
        .expect("document must be found");
    assert_eq!(doc, "/cache/updates/repodata/primary.xml");
    // traversal is over: the search committed to its one candidate
    assert!(scan.next_dir().is_none());

    let first = pkg("alpha", "1.0", "1", "x86_64");
    let second = pkg("beta", "2.0", "1", "x86_64");
    scan.on_document(Ok(Repo { package_count: 2, packages: vec![first.clone(), second.clone()] }));
    let packages = scan.into_packages().unwrap();
    assert_eq!(packages.len(), 2);
    assert_eq!(packages[0], first);
    assert_eq!(packages[1], second);
}

#[test]
fn scan_without_matching_tag_yields_nothing_and_no_error() {
    let mut scan = RepositoryPackageScanner::new(
        String::from("updates"),
        String::from("/cache"),
    );
    assert_eq!(scan.next_dir().unwrap(), "/cache");
    assert!(scan.on_listing(&vec![dir("/cache/base"), dir("/cache/extras")]).is_none());
    while let Some(_) = scan.next_dir() {
        let no_entries: Vec<FsEntry> = vec![];
        scan.on_listing(&no_entries);
    }
    let packages = scan.into_packages().expect("exhaustion is not an error");
    assert!(packages.is_empty());
}

#[test]
fn scan_decode_failure_aborts_with_the_error() {
    let mut scan = RepositoryPackageScanner::new(String::from("base"), String::from("/cache"));
    scan.next_dir().unwrap();
    scan.on_listing(&vec![dir("/cache/base")]);
    scan.next_dir().unwrap();
    let doc = scan.on_listing(&vec![file("/cache/base/primary.xml")]);
    assert!(doc.is_some());
    scan.on_document(Err(DecodeError { detail: String::from("truncated document") }));
    let out = scan.into_packages();
    assert!(out.is_err());
    assert_eq!(out.unwrap_err().detail, "truncated document");
}

#[test]
fn packages_without_format_details_pass_through_unchanged() {
    let mut scan = RepositoryPackageScanner::new(String::from("base"), String::from("/cache"));
    scan.next_dir().unwrap();
    scan.on_listing(&vec![dir("/cache/base")]);
    scan.next_dir().unwrap();
    scan.on_listing(&vec![file("/cache/base/primary.xml")]).unwrap();
    let bare = pkg("bare", "1.0", "1", "noarch");
    scan.on_document(Ok(Repo { package_count: 1, packages: vec![bare] }));
    let packages = scan.into_packages().unwrap();
    assert_eq!(packages.len(), 1);
    assert!(packages[0].format.license.is_none());
    assert!(packages[0].format.header_range.is_none());
    assert!(packages[0].format.provides.is_empty());
    assert!(packages[0].format.requires.is_empty());
}

#[test]
fn tag_matches_whole_final_components_only() {
    // tag "dates" must not commit to the directory "updates"
    let mut scan = RepositoryPackageScanner::new(String::from("dates"), String::from("/cache"));
    scan.next_dir().unwrap();
    assert!(scan.on_listing(&vec![dir("/cache/updates")]).is_none());
    // no match: the search descends into the subtree instead of committing
    assert_eq!(scan.next_dir().unwrap(), "/cache/updates");
    // a file named "notprimary.xml" is not the metadata document
    let mut scan2 = RepositoryPackageScanner::new(String::from("base"), String::from("/cache"));
    scan2.next_dir().unwrap();
    scan2.on_listing(&vec![dir("/cache/base")]);
    scan2.next_dir().unwrap();
    assert!(scan2.on_listing(&vec![file("/cache/base/notprimary.xml")]).is_none());
}

#[test]
fn aggregate_ignores_files_that_are_not_the_document() {
    let mut agg = CacheAggregateScanner::new(String::from("/cache"));
    agg.next_dir().unwrap();
    let docs = agg.on_listing(&vec![
        file("/cache/a/notprimary.xml"),
        file("/cache/a/primary.xml"),
    ]);
    assert_eq!(docs, vec![String::from("/cache/a/primary.xml")]);
}

#[test]
fn package_list_from_str_keeps_the_tag() {
    let list = PackageList::from("extras");
    assert_eq!(list.path, "extras");
}

#[test]
fn package_list_carries_its_tag_into_the_scan() {
    let list = PackageList::from_tag(String::from("extras"));
    assert_eq!(list.path, "extras");
    let mut scan = list.scanner(String::from("/cache"));
    assert_eq!(scan.next_dir().unwrap(), "/cache");
    assert!(scan.on_listing(&vec![dir("/cache/extras")]).is_none());
    assert_eq!(scan.next_dir().unwrap(), "/cache/extras");
}

#[test]
fn end_to_end_discovery_then_scan() {
    let repos = repositories_from_config("[base]\nenabled = 1\nbaseurl = http://example\n")
        .unwrap();
    assert_eq!(repos.len(), 1);
    let repo = &repos[0];
    assert_eq!(repo.tag, "base");
    assert!(repo.is_enabled());
    assert_eq!(repo.base_url.as_deref(), Some("http://example"));

    let mut scan = repo.scanner(String::from("/cache"));
    assert_eq!(scan.next_dir().unwrap(), "/cache");
    assert!(scan.on_listing(&vec![dir("/cache/x86_64")]).is_none());
    assert_eq!(scan.next_dir().unwrap(), "/cache/x86_64");
    assert!(scan.on_listing(&vec![dir("/cache/x86_64/base")]).is_none());
    assert_eq!(scan.next_dir().unwrap(), "/cache/x86_64/base");
    assert!(scan.on_listing(&vec![dir("/cache/x86_64/base/repodata")]).is_none());
    assert_eq!(scan.next_dir().unwrap(), "/cache/x86_64/base/repodata");
    let doc = scan.on_listing(&vec![file("/cache/x86_64/base/repodata/primary.xml")]);
    assert!(doc.is_some());
    scan.on_document(Ok(Repo {
        package_count: 1,
        packages: vec![pkg("bash", "5.0", "1.el8", "x86_64")],
    }));
    let packages = scan.into_packages().unwrap();
    assert_eq!(packages.len(), 1);
    assert_eq!(packages[0].name, "bash");
    assert_eq!(packages[0].version.to_string(), "5.0-1.el8");
}

#[test]
fn aggregate_gathers_the_union_of_every_document() {
    let d1 = Repo {
        package_count: 2,
        packages: vec![pkg("a1", "1", "1", "x86_64"), pkg("a2", "1", "1", "x86_64")],
    };
    let d2 = Repo { package_count: 1, packages: vec![pkg("b1", "2", "1", "x86_64")] };

    let mut agg = CacheAggregateScanner::new(String::from("/cache"));
    assert_eq!(agg.next_dir().unwrap(), "/cache");
    let docs = agg.on_listing(&vec![dir("/cache/a"), dir("/cache/b")]);
    assert!(docs.is_empty());
    // children are visited in enumeration order, depth-first
    assert_eq!(agg.next_dir().unwrap(), "/cache/a");
    let docs_a = agg.on_listing(&vec![file("/cache/a/primary.xml")]);
    assert_eq!(docs_a, vec![String::from("/cache/a/primary.xml")]);
    agg.on_document(Ok(d1.clone()));
    assert_eq!(agg.next_dir().unwrap(), "/cache/b");
    let docs_b = agg.on_listing(&vec![file("/cache/b/primary.xml")]);
    assert_eq!(docs_b, vec![String::from("/cache/b/primary.xml")]);
    agg.on_document(Ok(d2.clone()));
    assert!(agg.next_dir().is_none());

    let all = agg.into_packages();
    assert_eq!(all.len(), d1.packages.len() + d2.packages.len());
    assert_eq!(all[0], d1.packages[0]);
    assert_eq!(all[1], d1.packages[1]);
    assert_eq!(all[2], d2.packages[0]);

    // the single-repository scan for one tag sees only that subtree
    let mut one = RepositoryPackageScanner::new(String::from("a"), String::from("/cache"));
    one.next_dir().unwrap();
    assert!(one.on_listing(&vec![dir("/cache/a"), dir("/cache/b")]).is_none());
    one.next_dir().unwrap();
    one.on_listing(&vec![file("/cache/a/primary.xml")]).unwrap();
    one.on_document(Ok(d1.clone()));
    let only_a = one.into_packages().unwrap();
    assert_eq!(only_a.len(), 2);
    assert_eq!(only_a[0].name, "a1");
}

#[test]
fn aggregate_skips_documents_that_fail_to_decode() {
    let mut agg = CacheAggregateScanner::new(String::from("/cache"));
    agg.next_dir().unwrap();
    agg.on_listing(&vec![file("/cache/bad/primary.xml"), file("/cache/good/primary.xml")]);
    agg.on_document(Err(DecodeError { detail: String::from("not a document") }));
    agg.on_document(Ok(Repo { package_count: 1, packages: vec![pkg("ok", "1", "1", "noarch")] }));
    let all = agg.into_packages();
    assert_eq!(all.len(), 1);
    assert_eq!(all[0].name, "ok");
}

#[test]
fn aggregate_root_failure_is_fatal_sub_failures_are_not() {
    let mut agg = CacheAggregateScanner::new(String::from("/cache"));
    assert!(agg.listing_error_fatal());
    agg.next_dir().unwrap();
    agg.on_listing(&vec![dir("/cache/a")]);
    assert!(!agg.listing_error_fatal());
}
