//! Point-in-time filesystem presence probes.
//!
//! Presence on disk is a transient fact of the machine, so these answers
//! carry no promise; callers state only what follows from their own fields
//! and treat the probe's answer as a snapshot.

use vstd::prelude::*;

verus! {

/// Does this path name an existing filesystem entry right now?
///
/// Relies on std::path::Path::exists; the answer depends on the state of
/// the disk, so nothing is promised of it.
#[verifier::external_body]
pub fn path_exists(path: &str) -> bool {
    std::path::Path::new(path).exists()
}

/// Does this path name an existing regular file right now?
///
/// Relies on std::path::Path::is_file; the answer depends on the state of
/// the disk, so nothing is promised of it.
#[verifier::external_body]
pub fn file_exists(path: &str) -> bool {
    std::path::Path::new(path).is_file()
}

} // verus!
