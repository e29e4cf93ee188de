//! What the head of the response must provide before any byte of the body
//! is taken, and the decision that follows from it.

use vstd::prelude::*;

use crate::cache::{cache_hit, is_cache_hit, StagedFile};
use crate::error::DownloadError;

verus! {

/// The parts of a response head that the fetch depends on.
#[derive(Debug, Clone, Copy, PartialEq, Eq, Structural)]
pub struct ResponseHead {
    /// The numeric status code.
    pub status: u16,
    /// The declared length of the body, where the server gave one.
    pub content_length: Option<u64>,
}

/// What to do once the head is known.
#[derive(Debug, Clone, Copy, PartialEq, Eq, Structural)]
pub enum Plan {
    /// The staged file already holds a payload of the announced length.
    Reuse,
    /// Fetch a body of `expected` bytes.
    Fetch { expected: u64 },
}

/// The success range of status codes.
pub open spec fn is_success(status: u16) -> bool {
    200 <= status < 300
}

/// The size a head announces: a status check first, then the declared
/// length.
pub open spec fn announced_size(head: ResponseHead) -> Result<u64, DownloadError> {
    if !is_success(head.status) {
        Err(DownloadError::Transport)
    } else {
        match head.content_length {
            None => Err(DownloadError::MissingSize),
            Some(length) => Ok(length),
        }
    }
}

/// The plan that follows from a head and the state of the staging path.
pub open spec fn planned(head: ResponseHead, staged: StagedFile) -> Result<Plan, DownloadError> {
    match announced_size(head) {
        Err(error) => Err(error),
        Ok(expected) => if is_cache_hit(expected, staged) {
            Ok(Plan::Reuse)
        } else {
            Ok(Plan::Fetch { expected })
        },
    }
}

/// Extracts the expected size from a response head.
///
/// A status outside the success range is a transport failure, whatever
/// else the head says. A successful head without a declared length is
/// rejected: the size has to be known before the first chunk arrives.
pub fn expected_size(head: &ResponseHead) -> (size: Result<u64, DownloadError>)
    ensures
        size == announced_size(*head),
{
    if head.status < 200 || head.status >= 300 {
        return Err(DownloadError::Transport);
    }
    match head.content_length {
        None => Err(DownloadError::MissingSize),
        Some(length) => Ok(length),
    }
}

/// Decides between reusing the staged file and fetching.
///
/// Fails exactly as [`expected_size`] does, and so before anything is
/// fetched; the staged file counts only once the size is known.
pub fn plan(head: &ResponseHead, staged: StagedFile) -> (decision: Result<Plan, DownloadError>)
    ensures
        decision == planned(*head, staged),
{
    match expected_size(head) {
        Err(error) => Err(error),
        Ok(expected) => {
            if cache_hit(expected, staged) {
                Ok(Plan::Reuse)
            } else {
                Ok(Plan::Fetch { expected })
            }
        },
    }
}

} // verus!
