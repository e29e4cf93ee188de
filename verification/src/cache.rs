//! The cache gate: whether a previously staged file can stand in for the
//! download.

use vstd::prelude::*;

verus! {

/// What the file system said about the staging path.
#[derive(Debug, Clone, Copy, PartialEq, Eq, Structural)]
pub enum StagedFile {
    /// Nothing exists at the path.
    Absent,
    /// Something is there, but its metadata could not be read.
    Unreadable,
    /// A file of `size` bytes.
    Present { size: u64 },
}

/// A staged file is reused exactly when it exists and is as long as the
/// payload the server announced. Contents are not compared: a file of the
/// right length with other bytes in it counts as a hit.
pub open spec fn is_cache_hit(expected: u64, staged: StagedFile) -> bool {
    staged == (StagedFile::Present { size: expected })
}

/// Decides whether the staged file replaces the fetch. Reads nothing and
/// changes nothing; a path whose metadata could not be read is a miss, not
/// an error.
pub fn cache_hit(expected: u64, staged: StagedFile) -> (reuse: bool)
    ensures
        reuse == is_cache_hit(expected, staged),
{
    match staged {
        StagedFile::Present { size } => size == expected,
        _ => false,
    }
}

} // verus!
