//! The persister's check: whether the single write of the payload put
//! all of it on disk.

use bytes::BytesMut;
use vstd::prelude::*;

use crate::error::DownloadError;
use crate::payload::buffer_bytes;

verus! {

/// What came of creating the staging file and writing the payload to it in
/// one operation.
#[derive(Debug, Clone, Copy, PartialEq, Eq, Structural)]
pub enum WriteOutcome {
    /// The file could not be created, or the write failed.
    Failed,
    /// The write returned after taking `bytes` bytes.
    Wrote { bytes: usize },
}

/// The write succeeded only if it took the whole payload.
pub open spec fn fully_written(payload: Seq<u8>, outcome: WriteOutcome) -> bool {
    outcome matches WriteOutcome::Wrote { bytes } && bytes == payload.len()
}

/// Judges the write of `payload`. Any failure, a short write included, is
/// a write error; nothing is retried.
pub fn confirm_write(payload: &BytesMut, outcome: WriteOutcome) -> (result: Result<
    (),
    DownloadError,
>)
    ensures
        result is Ok <==> fully_written(buffer_bytes(*payload), outcome),
        result is Err ==> result == Err::<(), DownloadError>(DownloadError::Write),
{
    match outcome {
        WriteOutcome::Wrote { bytes } => {
            if bytes == payload.len() {
                Ok(())
            } else {
                Err(DownloadError::Write)
            }
        },
        WriteOutcome::Failed => Err(DownloadError::Write),
    }
}

} // verus!
