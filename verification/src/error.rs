//! The ways a fetch can fail. Every one of them is fatal to the operation.

use vstd::prelude::*;

verus! {

/// Why the operation was abandoned.
#[derive(Debug, Clone, Copy, PartialEq, Eq, Structural)]
pub enum DownloadError {
    /// The request or the stream failed, or the server answered with a
    /// status outside the success range.
    Transport,
    /// The server did not declare the length of the body.
    MissingSize,
    /// The stream ended with a byte total other than the declared one.
    IncompleteTransfer { expected: usize, received: usize },
    /// The staging file could not be created or was not written in full.
    Write,
}

} // verus!
