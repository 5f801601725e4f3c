//! The decoded form of a repository's metadata document: the document record
//! itself and the package records it lists.

use vstd::prelude::*;
use vstd::string::StringExecFns;

verus! {

/// One decoded metadata document: the count the document declares (not
/// validated against the list), and its packages in document order.
#[derive(Clone, Debug, PartialEq)]
pub struct Repo {
    pub package_count: u64,
    pub packages: Vec<Package>,
}

/// One package record of a metadata document.
#[derive(Clone, Debug, PartialEq)]
pub struct Package {
    pub package_type: Option<String>,
    pub name: String,
    pub arch: String,
    pub version: PackageVersion,
    pub checksum: PackageChecksum,
    pub summary: String,
    pub description: String,
    pub url: String,
    pub time: PackageTime,
    pub size: PackageSize,
    pub location: PackageLocation,
    pub format: PackageFormat,
}

#[derive(Clone, Debug, PartialEq)]
pub struct PackageVersion {
    pub epoch: u64,
    pub rel: String,
    pub ver: String,
}

impl PackageVersion {
    /// Renders the version as `"{ver}-{rel}"`; the epoch is not part of the
    /// rendered form.
    pub fn to_string(&self) -> (r: String)
        ensures
            r@ == self.ver@ + "-"@ + self.rel@,
    {
        let mut s = String::from_str(self.ver.as_str());
        s.append("-");
        s.append(self.rel.as_str());
        s
    }
}

#[derive(Clone, Debug, PartialEq)]
pub struct PackageChecksum {
    pub pkgid: String,
    pub checksum_type: String,
    pub value: String,
}

#[derive(Clone, Debug, PartialEq)]
pub struct PackageTime {
    pub build: u64,
    pub file: u64,
}

#[derive(Clone, Debug, PartialEq)]
pub struct PackageSize {
    pub archive: u64,
    pub installed: u64,
    pub package: String,
}

#[derive(Clone, Debug, PartialEq)]
pub struct PackageLocation {
    pub href: String,
}

/// The optional `format` sub-structure of a package. The `provides` and
/// `requires` lists are plain sequences: a document that omits them decodes
/// to empty lists, not to an error.
#[derive(Clone, Debug, PartialEq)]
pub struct PackageFormat {
    pub license: Option<String>,
    pub group: Option<String>,
    pub build_host: Option<String>,
    pub source_rpm: Option<String>,
    pub header_range: Option<PackageFormatHeaderRange>,
    pub provides: Vec<RpmEntry>,
    pub requires: Vec<RpmEntry>,
}

#[derive(Clone, Debug, PartialEq)]
pub struct PackageFormatHeaderRange {
    pub start: u64,
    pub end: u64,
}

#[derive(Clone, Debug, PartialEq)]
pub struct RpmEntry {
    pub epoch: u64,
    pub flags: String,
    pub name: String,
    pub rel: String,
    pub ver: String,
}

} // verus!
