//! Discovery of package-repository configuration entries and of the cached
//! package-metadata documents that belong to them.
//!
//! The crate is organised around three cooperating pieces:
//!
//! * configuration decoding: INI-style configuration text is turned into
//!   [`Repository`](repository::Repository) records, one per section, in
//!   declaration order;
//! * a single-repository scan that searches a cache tree for the subtree of
//!   one repository tag and the metadata document inside it, stopping at the
//!   first match;
//! * an aggregate scan that gathers the packages of every metadata document
//!   beneath a cache root.
//!
//! All traversal is expressed as explicit state machines over a pending stack
//! of directories: the caller performs the directory reads and file decodes
//! and hands the results back as plain values, so the search and containment
//! logic itself is fully verified and independent of how the file system is
//! driven.

pub mod error;
pub mod ini;
pub mod package;
pub mod package_list;
pub mod repository;
pub mod scan;
pub mod strutil;
pub mod walk;
