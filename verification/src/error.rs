//! The error surfaced when a configuration file or a metadata document does
//! not decode.

use vstd::prelude::*;

verus! {

/// A malformed configuration file or metadata document. Carries the decoder's
/// message. Containment is decided by the component that hits it: discovery
/// and the aggregate scan skip the offending file, the single-repository scan
/// aborts, since it has already committed to its one candidate document.
#[derive(Clone, Debug)]
pub struct DecodeError {
    pub detail: String,
}

} // verus!
