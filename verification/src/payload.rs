//! The byte containers that carry the payload, as far as the fetch relies
//! on them. Nothing in this file is proved: each contract restates what the
//! `bytes` crate does.

use bytes::{Bytes, BytesMut};
use vstd::prelude::*;

verus! {

/// `bytes::Bytes`, an immutable chunk of bytes as the transport hands it
/// over. Opaque here: only [`chunk_bytes`] speaks of what it holds.
#[verifier::external_type_specification]
#[verifier::external_body]
pub struct ExBytes(Bytes);

/// `bytes::BytesMut`, the growable buffer the payload is gathered in.
/// Opaque here: only [`buffer_bytes`] speaks of what it holds.
#[verifier::external_type_specification]
#[verifier::external_body]
pub struct ExBytesMut(BytesMut);

/// The bytes a chunk holds, first to last.
pub uninterp spec fn chunk_bytes(chunk: Bytes) -> Seq<u8>;

/// The bytes a buffer holds, first to last.
pub uninterp spec fn buffer_bytes(buffer: BytesMut) -> Seq<u8>;

/// `BytesMut::with_capacity` returns a buffer that holds no bytes. It
/// allocates through `Vec::with_capacity`, which panics on a capacity above
/// `isize::MAX`.
pub assume_specification[ BytesMut::with_capacity ](capacity: usize) -> (buffer: BytesMut)
    requires
        capacity <= isize::MAX,
    ensures
        buffer_bytes(buffer) == Seq::<u8>::empty(),
;

/// `BytesMut::len` returns the number of bytes the buffer holds.
pub assume_specification[ BytesMut::len ](buffer: &BytesMut) -> (length: usize)
    ensures
        length == buffer_bytes(*buffer).len(),
;

/// `Bytes::len` returns the number of bytes the chunk holds.
pub assume_specification[ Bytes::len ](chunk: &Bytes) -> (length: usize)
    ensures
        length == chunk_bytes(*chunk).len(),
;

/// `BytesMut::extend` with a `Bytes` as the source walks the chunk byte by
/// byte and appends each to the buffer, so the buffer ends as its old
/// contents followed by the chunk's. It reserves room first and panics
/// where the new length would exceed `isize::MAX`.
#[verifier::external_body]
pub(crate) fn append_chunk(buffer: &mut BytesMut, chunk: Bytes)
    requires
        buffer_bytes(*old(buffer)).len() + chunk_bytes(chunk).len() <= isize::MAX,
    ensures
        buffer_bytes(*final(buffer)) == buffer_bytes(*old(buffer)) + chunk_bytes(chunk),
{
    buffer.extend(chunk);
}

} // verus!
