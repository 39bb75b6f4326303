//! Filesystem probes used during library resolution.
//!
//! What is on disk can change between calls, so nothing is promised of a
//! probe's outcome; the resolution logic states what it returns for every
//! combination of outcomes.

use vstd::prelude::*;

verus! {

/// Relies on std::path::Path::is_file: whether the path names an existing
/// regular file on disk right now.
#[verifier::external_body]
pub(crate) fn path_is_file(path: &str) -> bool {
    std::path::Path::new(path).is_file()
}

/// Relies on std::path::Path::is_dir: whether the path names an existing
/// directory on disk right now.
#[verifier::external_body]
pub(crate) fn path_is_dir(path: &str) -> bool {
    std::path::Path::new(path).is_dir()
}

/// Relies on std::path::Path::exists: whether the path names anything on
/// disk right now.
#[verifier::external_body]
pub(crate) fn path_exists(path: &str) -> bool {
    std::path::Path::new(path).exists()
}

} // verus!
