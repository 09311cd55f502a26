//! Validation of the storage root directory.
//!
//! The root is validated exactly once, before the server binds its
//! socket.  What the filesystem answers cannot be promised here, so the
//! two probes are trusted calls with no stated outcome, and the
//! decision over their answers is verified in [`classify_dirpath`].

use vstd::prelude::*;

verus! {

/// Why a candidate root directory was rejected.
pub enum PathError {
    /// The path does not exist or cannot be reached.
    NotFound,
    /// The path exists but is not a directory.
    NotADirectory,
}

/// Relies on std::path::Path::exists: whether the path points at an
/// entity the process can reach on disk.  The answer depends on the
/// state of the filesystem, so nothing is promised of it.
#[verifier::external_body]
fn path_exists(path: &str) -> bool {
    std::path::Path::new(path).exists()
}

/// Relies on std::path::Path::is_dir: whether the path points at a
/// directory on disk.  The answer depends on the state of the
/// filesystem, so nothing is promised of it.
#[verifier::external_body]
fn path_is_dir(path: &str) -> bool {
    std::path::Path::new(path).is_dir()
}

/// The decision over the two filesystem answers: a path that exists
/// and is a directory passes; one that does not exist is not found;
/// one that exists but is no directory is rejected as such.
pub fn classify_dirpath(exists: bool, is_dir: bool) -> (r: Result<(), PathError>)
    ensures
        exists && is_dir ==> r is Ok,
        !exists ==> r == Result::<(), PathError>::Err(PathError::NotFound),
        exists && !is_dir ==> r == Result::<(), PathError>::Err(PathError::NotADirectory),
{
    if !exists {
        Err(PathError::NotFound)
    } else if !is_dir {
        Err(PathError::NotADirectory)
    } else {
        Ok(())
    }
}

/// Validates the candidate root directory: the path comes back
/// unchanged when the filesystem reports it as an existing directory,
/// and the error otherwise names what was wrong with it.
pub fn get_valid_dirpath(path: String) -> (r: Result<String, PathError>)
    ensures
        r matches Ok(p) ==> p@ == path@,
{
    let exists = path_exists(path.as_str());
    let is_dir = path_is_dir(path.as_str());
    match classify_dirpath(exists, is_dir) {
        Ok(()) => Ok(path),
        Err(e) => Err(e),
    }
}

} // verus!
