//! A handle on one repository's package list: the tag to scan the cache tree
//! for.

use crate::scan::{RepositoryPackageScanner, ScanPhase};
use vstd::prelude::*;
use vstd::string::StringExecFns;

verus! {

/// The packages of one repository, identified by its tag; the scan itself is
/// begun with [`PackageList::scanner`].
#[derive(Clone, Debug, PartialEq)]
pub struct PackageList {
    pub path: String,
}

impl From<&str> for PackageList {
    fn from(tag: &str) -> (r: Self)
        ensures
            r.path@ == tag@,
    {
        PackageList::from_tag(String::from_str(tag))
    }
}

/// What `From::from` means in contracts cannot be written here — no spec
/// expression builds the owned tag string from the slice — so the conversion
/// does not opt into the spec-level `from_spec`; the `ensures` on `from`
/// above carries its contract.
impl vstd::std_specs::convert::FromSpecImpl<&str> for PackageList {
    open spec fn obeys_from_spec() -> bool {
        false
    }

    open spec fn from_spec(tag: &str) -> PackageList {
        arbitrary()
    }
}

impl PackageList {
    /// A package list for the repository with this tag.
    pub fn from_tag(path: String) -> (r: Self)
        ensures
            r.path == path,
    {
        PackageList { path }
    }

    /// Begins the single-repository scan for this tag over the cache tree
    /// under `cache_root`.
    pub fn scanner(self, cache_root: String) -> (r: RepositoryPackageScanner)
        ensures
            r.tag == self.path,
            r.phase == ScanPhase::SearchingRepo,
            r.pending@ == seq![cache_root],
            r.packages@ == Seq::<crate::package::Package>::empty(),
            r.error is None,
            !r.started,
    {
        RepositoryPackageScanner::new(self.path, cache_root)
    }
}

} // verus!
