//! Repository records, their decoding from configuration sections, and the
//! discovery traversal over a configuration tree.

use crate::error::DecodeError;
use crate::ini::{
    entries_view, ini_sections_of, parse_ini, IniSection, SectionEntriesV,
};
use crate::strutil::{
    component_suffix_matches, dec_value, parses_as_u64, path_ends_with_component, str_eq,
    str_ends_with, suffix_matches,
};
use crate::walk::{child_dirs, push_child_dirs, FsEntry};
use vstd::prelude::*;
use vstd::string::StringExecFns;

verus! {

/// One repository descriptor, decoded from one configuration section. The
/// `tag` is the section name and the key a scanner looks the repository up
/// by; every other field is optional.
#[derive(Clone, Debug, PartialEq)]
pub struct Repository {
    pub tag: String,
    pub name: Option<String>,
    pub enabled: Option<u64>,
    pub mirror_list: Option<String>,
    pub base_url: Option<String>,
    pub ssl_ca_cert: Option<String>,
    pub ssl_client_cert: Option<String>,
    pub ssl_verify: Option<u64>,
    pub metadata_expire: Option<u64>,
    pub enable_metadata: Option<u64>,
    pub gpg_check: Option<u64>,
    pub gpg_key: Option<String>,
}

/// A repository counts as enabled exactly when `enabled` is absent or 1.
pub open spec fn spec_is_enabled(enabled: Option<u64>) -> bool {
    enabled is None || enabled == Some(1u64)
}

impl Repository {
    /// Whether the repository is enabled: true when `enabled` is absent or
    /// equal to 1, false for every other value.
    pub fn is_enabled(&self) -> (r: bool)
        ensures
            r == spec_is_enabled(self.enabled),
    {
        match self.enabled {
            None => true,
            Some(v) => v == 1,
        }
    }
}

/// The view of an optional string.
pub open spec fn opt_str_view(o: Option<String>) -> Option<Seq<char>> {
    match o {
        Some(s) => Some(s@),
        None => None,
    }
}

/// The entry of `es` whose key is `key`, if any: `None` when the key is
/// absent, `Some(v)` with the entry's (possibly absent) value otherwise.
/// Entries are searched front to back; decoded sections hold each key once.
pub open spec fn entry_lookup(es: SectionEntriesV, key: Seq<char>) -> Option<Option<Seq<char>>>
    decreases es.len(),
{
    if es.len() == 0 {
        None
    } else if es[0].0 == key {
        Some(es[0].1)
    } else {
        entry_lookup(es.drop_first(), key)
    }
}

/// The string value of `key` in `es`: absent when the key is absent or was
/// declared without a value.
pub open spec fn str_option_of(es: SectionEntriesV, key: Seq<char>) -> Option<Seq<char>> {
    match entry_lookup(es, key) {
        Some(Some(v)) => Some(v),
        _ => None,
    }
}

/// The value of `key`, if present, is a decimal numeral that fits a `u64`.
pub open spec fn int_option_decodes(es: SectionEntriesV, key: Seq<char>) -> bool {
    match str_option_of(es, key) {
        Some(v) => parses_as_u64(v),
        None => true,
    }
}

/// The integer value of `key` in `es`, when `int_option_decodes` holds.
pub open spec fn int_option_of(es: SectionEntriesV, key: Seq<char>) -> Option<u64> {
    match str_option_of(es, key) {
        Some(v) => Some(dec_value(v) as u64),
        None => None,
    }
}

/// A lookup is unaffected by dropping a keyless prefix.
proof fn lemma_entry_lookup_skip(es: SectionEntriesV, key: Seq<char>, i: int)
    requires
        0 <= i <= es.len(),
        forall|j: int| 0 <= j < i ==> (#[trigger] es[j]).0 != key,
    ensures
        entry_lookup(es, key) == entry_lookup(es.skip(i), key),
    decreases i,
{
    if i > 0 {
        assert(es.skip(1) =~= es.drop_first());
        lemma_entry_lookup_skip(es.drop_first(), key, i - 1);
        assert(es.drop_first().skip(i - 1) =~= es.skip(i));
    } else {
        assert(es.skip(0) =~= es);
    }
}

/// Looks `key` up in a section's entries and clones its string value.
fn get_str(entries: &Vec<(String, Option<String>)>, key: &str) -> (r: Option<String>)
    ensures
        opt_str_view(r) == str_option_of(entries_view(entries@), key@),
{
    let mut i: usize = 0;
    while i < entries.len()
        invariant
            i <= entries@.len(),
            forall|j: int| 0 <= j < i ==> (#[trigger] entries_view(entries@)[j]).0 != key@,
        decreases entries@.len() - i,
    {
        if str_eq(entries[i].0.as_str(), key) {
            proof {
                lemma_entry_lookup_skip(entries_view(entries@), key@, i as int);
                assert(entries_view(entries@).skip(i as int)[0] == entries_view(entries@)[
                i as int]);
            }
            return match &entries[i].1 {
                Some(v) => Some(v.clone()),
                None => None,
            };
        }
        i = i + 1;
    }
    proof {
        lemma_entry_lookup_skip(entries_view(entries@), key@, i as int);
        assert(entries_view(entries@).skip(i as int) =~= Seq::<
            (Seq<char>, Option<Seq<char>>),
        >::empty());
    }
    None
}

/// Looks `key` up and parses its value as a `u64`; a present value that is
/// not a decimal numeral is a decode error for the section.
fn get_u64(entries: &Vec<(String, Option<String>)>, key: &str) -> (r: Result<
    Option<u64>,
    DecodeError,
>)
    ensures
        int_option_decodes(entries_view(entries@), key@) ==> r == Ok::<
            Option<u64>,
            DecodeError,
        >(int_option_of(entries_view(entries@), key@)),
        !int_option_decodes(entries_view(entries@), key@) ==> r is Err,
{
    match get_str(entries, key) {
        None => Ok(None),
        Some(v) => match crate::strutil::parse_u64(v.as_str()) {
            Some(n) => Ok(Some(n)),
            None => Err(
                DecodeError { detail: String::from_str("option value is not an integer") },
            ),
        },
    }
}

/// Every integer-valued option of the section parses (or is absent).
pub open spec fn section_decodes(es: SectionEntriesV) -> bool {
    &&& int_option_decodes(es, "enabled"@)
    &&& int_option_decodes(es, "sslverify"@)
    &&& int_option_decodes(es, "metadataexpire"@)
    &&& int_option_decodes(es, "enablemetadata"@)
    &&& int_option_decodes(es, "gpgcheck"@)
}

/// `r` is exactly the repository that the section named `name` with entries
/// `es` describes: the tag is the section name, each recognized key feeds its
/// field, unrecognized keys are ignored.
pub open spec fn repo_matches_section(r: Repository, name: Seq<char>, es: SectionEntriesV) -> bool {
    &&& r.tag@ == name
    &&& opt_str_view(r.name) == str_option_of(es, "name"@)
    &&& r.enabled == int_option_of(es, "enabled"@)
    &&& opt_str_view(r.mirror_list) == str_option_of(es, "mirrorlist"@)
    &&& opt_str_view(r.base_url) == str_option_of(es, "baseurl"@)
    &&& opt_str_view(r.ssl_ca_cert) == str_option_of(es, "sslcacert"@)
    &&& opt_str_view(r.ssl_client_cert) == str_option_of(es, "sslclientcert"@)
    &&& r.ssl_verify == int_option_of(es, "sslverify"@)
    &&& r.metadata_expire == int_option_of(es, "metadataexpire"@)
    &&& r.enable_metadata == int_option_of(es, "enablemetadata"@)
    &&& r.gpg_check == int_option_of(es, "gpgcheck"@)
    &&& opt_str_view(r.gpg_key) == str_option_of(es, "gpgkey"@)
}

/// Builds the repository a configuration section describes. Fails exactly
/// when one of the section's integer options does not parse.
pub fn repository_from_section(sec: &IniSection) -> (r: Result<Repository, DecodeError>)
    ensures
        section_decodes(entries_view(sec.entries@)) ==> (r matches Ok(repo)
            && repo_matches_section(repo, sec.name@, entries_view(sec.entries@))),
        !section_decodes(entries_view(sec.entries@)) ==> r is Err,
{
    let enabled = match get_u64(&sec.entries, "enabled") {
        Ok(v) => v,
        Err(e) => { return Err(e) },
    };
    let ssl_verify = match get_u64(&sec.entries, "sslverify") {
        Ok(v) => v,
        Err(e) => { return Err(e) },
    };
    let metadata_expire = match get_u64(&sec.entries, "metadataexpire") {
        Ok(v) => v,
        Err(e) => { return Err(e) },
    };
    let enable_metadata = match get_u64(&sec.entries, "enablemetadata") {
        Ok(v) => v,
        Err(e) => { return Err(e) },
    };
    let gpg_check = match get_u64(&sec.entries, "gpgcheck") {
        Ok(v) => v,
        Err(e) => { return Err(e) },
    };
    Ok(
        Repository {
            tag: sec.name.clone(),
            name: get_str(&sec.entries, "name"),
            enabled,
            mirror_list: get_str(&sec.entries, "mirrorlist"),
            base_url: get_str(&sec.entries, "baseurl"),
            ssl_ca_cert: get_str(&sec.entries, "sslcacert"),
            ssl_client_cert: get_str(&sec.entries, "sslclientcert"),
            ssl_verify,
            metadata_expire,
            enable_metadata,
            gpg_check,
            gpg_key: get_str(&sec.entries, "gpgkey"),
        },
    )
}

/// The text parses as INI and every one of its sections decodes.
pub open spec fn config_decodes(text: Seq<char>) -> bool {
    match ini_sections_of(text) {
        Some(secs) => forall|i: int|
            0 <= i < secs.len() ==> section_decodes((#[trigger] secs[i]).1),
        None => false,
    }
}

/// Decodes one configuration file's text into repository records, one per
/// section, in declaration order. Fails exactly when the text does not parse
/// or some section's integer option does not.
pub fn repositories_from_config(text: &str) -> (r: Result<Vec<Repository>, DecodeError>)
    ensures
        config_decodes(text@) ==> (ini_sections_of(text@) matches Some(secs) && r matches Ok(
            repos,
        ) && repos@.len() == secs.len() && (forall|i: int|
            0 <= i < secs.len() ==> repo_matches_section(
                #[trigger] repos@[i],
                secs[i].0,
                secs[i].1,
            ))),
        !config_decodes(text@) ==> r is Err,
{
    let secs = match parse_ini(text) {
        Ok(s) => s,
        Err(e) => { return Err(DecodeError { detail: e }) },
    };
    let ghost secs_v = crate::ini::sections_view(secs@);
    let mut repos: Vec<Repository> = Vec::new();
    let mut i: usize = 0;
    while i < secs.len()
        invariant
            i <= secs@.len(),
            ini_sections_of(text@) == Some(secs_v),
            secs_v == crate::ini::sections_view(secs@),
            repos@.len() == i,
            forall|j: int|
                0 <= j < i ==> repo_matches_section(#[trigger] repos@[j], secs_v[j].0, secs_v[j].1),
            forall|j: int| 0 <= j < i ==> section_decodes((#[trigger] secs_v[j]).1),
        decreases secs@.len() - i,
    {
        match repository_from_section(&secs[i]) {
            Ok(rep) => {
                repos.push(rep);
            },
            Err(e) => {
                proof {
                    assert(!section_decodes(secs_v[i as int].1));
                }
                return Err(e);
            },
        }
        i = i + 1;
    }
    Ok(repos)
}

/// A configuration file of a listing: a file whose path ends with the
/// configuration marker (a plain character-suffix match, as an extension)
/// and, when a single-file filter is set, whose file name is the filter —
/// the filter matches as a final path component, so with filter `b.repo`
/// only the file named `b.repo` is decoded, never a sibling `ab.repo`.
pub open spec fn is_config_entry(e: FsEntry, filter: Option<String>) -> bool {
    &&& !e.is_dir
    &&& suffix_matches(e.path@, ".repo"@)
    &&& match filter {
        Some(f) => component_suffix_matches(e.path@, f@),
        None => true,
    }
}

/// The configuration files of a listing, in enumeration order: files whose
/// path ends with the configuration marker and, when a filter is set, with
/// the filter.
pub open spec fn config_file_paths(es: Seq<FsEntry>, filter: Option<String>) -> Seq<String>
    decreases es.len(),
{
    if es.len() == 0 {
        Seq::empty()
    } else {
        config_file_paths(es.drop_last(), filter) + if is_config_entry(es.last(), filter) {
            seq![es.last().path]
        } else {
            Seq::empty()
        }
    }
}

/// One configuration file's lawful yield: a file that decodes contributes
/// one repository per section, in section order, each matching its section;
/// a file that does not decode contributes nothing.
pub open spec fn file_yield_matches(text: Seq<char>, repos: Seq<Repository>) -> bool {
    if config_decodes(text) {
        match ini_sections_of(text) {
            Some(secs) => repos.len() == secs.len() && (forall|i: int|
                0 <= i < secs.len() ==> repo_matches_section(
                    #[trigger] repos[i],
                    secs[i].0,
                    secs[i].1,
                )),
            None => false,
        }
    } else {
        repos.len() == 0
    }
}

/// The repositories of a run of files — each paired with its yield — in
/// traversal order.
pub open spec fn flatten_file_yields(fs: Seq<(Seq<char>, Seq<Repository>)>) -> Seq<Repository>
    decreases fs.len(),
{
    if fs.len() == 0 {
        Seq::empty()
    } else {
        flatten_file_yields(fs.drop_last()) + fs.last().1
    }
}

/// The discovery traversal over a configuration tree: a depth-first pending
/// stack of directories, an optional single-file filter, and the repositories
/// yielded so far.
///
/// The caller drives it: `next_dir` hands out the next directory to list,
/// `on_listing` takes the listing back and names the configuration files to
/// decode, `on_config_text` decodes one file's text, skipping the file when
/// it is malformed. A failure to list a directory is fatal only when it hits
/// the traversal root, before anything was listed.
pub struct RepositoryList {
    /// When set, only the configuration file with this file name is decoded
    /// (the single-file form of discovery); the name matches as a final path
    /// component.
    pub filter: Option<String>,
    /// Directories still to list, popped from the back.
    pub pending: Vec<String>,
    /// Whether some directory listing has been taken in.
    pub started: bool,
    /// Every repository yielded so far, in yield order.
    pub yielded: Ghost<Seq<Repository>>,
    /// Every configuration file decoded so far, in traversal order, each
    /// with the repositories it yielded.
    pub files: Ghost<Seq<(Seq<char>, Seq<Repository>)>>,
    /// The decode failure of the most recently handed configuration file,
    /// `None` when that file decoded; lets the driver report each skipped
    /// file.
    pub last_skip: Option<DecodeError>,
}

impl RepositoryList {
    /// The whole-traversal discovery law, kept by every step: the
    /// repositories yielded so far are exactly the per-file yields of the
    /// configuration files decoded so far, concatenated in traversal order,
    /// and each file's yield is one repository per section, in section order
    /// (nothing for a file that does not decode). In particular, after any
    /// number of decodable files holding some total number of sections,
    /// discovery has yielded exactly that many repositories.
    pub open spec fn wf(&self) -> bool {
        &&& self.yielded@ == flatten_file_yields(self.files@)
        &&& forall|i: int|
            0 <= i < self.files@.len() ==> file_yield_matches(
                (#[trigger] self.files@[i]).0,
                self.files@[i].1,
            )
    }

    /// A discovery of the tree under `root`; with a filter, only the named
    /// file is decoded.
    pub fn new(root: String, filter: Option<String>) -> (r: Self)
        ensures
            r.pending@ == seq![root],
            r.filter == filter,
            !r.started,
            r.yielded@ == Seq::<Repository>::empty(),
            r.files@ == Seq::<(Seq<char>, Seq<Repository>)>::empty(),
            r.last_skip is None,
            r.wf(),
    {
        let mut pending: Vec<String> = Vec::new();
        pending.push(root);
        proof {
            assert(pending@ =~= seq![root]);
        }
        RepositoryList {
            filter,
            pending,
            started: false,
            yielded: Ghost(Seq::empty()),
            files: Ghost(Seq::empty()),
            last_skip: None,
        }
    }

    /// The next directory to list, depth-first; `None` when the traversal is
    /// exhausted.
    pub fn next_dir(&mut self) -> (r: Option<String>)
        ensures
            final(self).filter == old(self).filter,
            final(self).started == old(self).started,
            final(self).yielded == old(self).yielded,
            final(self).files == old(self).files,
            final(self).last_skip == old(self).last_skip,
            old(self).wf() ==> final(self).wf(),
            match r {
                Some(d) => old(self).pending@.len() > 0 && d == old(self).pending@.last()
                    && final(self).pending@ == old(self).pending@.drop_last(),
                None => old(self).pending@.len() == 0
                    && final(self).pending@ == old(self).pending@,
            },
    {
        self.pending.pop()
    }

    /// Takes in the listing of the directory `next_dir` handed out: pushes
    /// its child directories for the depth-first descent and returns the
    /// configuration files to decode, in enumeration order.
    pub fn on_listing(&mut self, entries: &Vec<FsEntry>) -> (files: Vec<String>)
        ensures
            final(self).filter == old(self).filter,
            final(self).started,
            final(self).yielded == old(self).yielded,
            final(self).files == old(self).files,
            final(self).last_skip == old(self).last_skip,
            old(self).wf() ==> final(self).wf(),
            final(self).pending@ == old(self).pending@ + child_dirs(entries@).reverse(),
            files@ == config_file_paths(entries@, old(self).filter),
    {
        self.started = true;
        push_child_dirs(&mut self.pending, entries);
        let mut files: Vec<String> = Vec::new();
        let mut i: usize = 0;
        while i < entries.len()
            invariant
                i <= entries@.len(),
                files@ == config_file_paths(entries@.take(i as int), self.filter),
                self.filter == old(self).filter,
            decreases entries@.len() - i,
        {
            let e = &entries[i];
            proof {
                assert(entries@.take(i as int + 1).drop_last() =~= entries@.take(i as int));
                assert(entries@.take(i as int + 1).last() == entries@[i as int]);
            }
            let matched = if e.is_dir {
                false
            } else if !str_ends_with(e.path.as_str(), ".repo") {
                false
            } else {
                match &self.filter {
                    Some(f) => path_ends_with_component(e.path.as_str(), f.as_str()),
                    None => true,
                }
            };
            if matched {
                files.push(e.path.clone());
            }
            proof {
                assert(files@ =~= config_file_paths(entries@.take(i as int + 1), self.filter));
            }
            i = i + 1;
        }
        proof {
            assert(entries@.take(entries@.len() as int) =~= entries@);
        }
        files
    }

    /// Whether a failure to list a directory is fatal: it is exactly when no
    /// listing was taken in yet, that is, when the traversal root itself
    /// could not be listed. Every later listing failure skips that directory
    /// and the traversal continues.
    pub fn listing_error_fatal(&self) -> (fatal: bool)
        ensures
            fatal == !self.started,
    {
        !self.started
    }

    /// Decodes one configuration file's text and yields its repositories, in
    /// section order. A file that does not decode is skipped: it contributes
    /// nothing, its failure is held in `last_skip` for the driver to report,
    /// and discovery goes on.
    pub fn on_config_text(&mut self, text: &str) -> (repos: Vec<Repository>)
        ensures
            final(self).filter == old(self).filter,
            final(self).started == old(self).started,
            final(self).pending == old(self).pending,
            final(self).yielded@ == old(self).yielded@ + repos@,
            final(self).files@ == old(self).files@.push((text@, repos@)),
            old(self).wf() ==> final(self).wf(),
            config_decodes(text@) ==> (ini_sections_of(text@) matches Some(secs) && repos@.len()
                == secs.len() && (forall|i: int|
                0 <= i < secs.len() ==> repo_matches_section(
                    #[trigger] repos@[i],
                    secs[i].0,
                    secs[i].1,
                ))),
            !config_decodes(text@) ==> repos@.len() == 0,
            config_decodes(text@) <==> final(self).last_skip is None,
    {
        let repos = match repositories_from_config(text) {
            Ok(rs) => {
                self.last_skip = None;
                rs
            },
            Err(e) => {
                self.last_skip = Some(e);
                Vec::new()
            },
        };
        proof {
            self.yielded@ = self.yielded@ + repos@;
            self.files@ = self.files@.push((text@, repos@));
            assert(self.files@.drop_last() =~= old(self).files@);
            assert(self.files@.last() == (text@, repos@));
            assert(file_yield_matches(text@, repos@));
            if old(self).wf() {
                assert(flatten_file_yields(self.files@) == flatten_file_yields(old(self).files@)
                    + repos@);
                assert(forall|i: int|
                    0 <= i < old(self).files@.len() ==> self.files@[i] == old(self).files@[i]);
            }
        }
        repos
    }
}

} // verus!
