//! The stream fetcher: a buffer that grows chunk by chunk, an exact record
//! of how much has arrived, and the check that closes the transfer.

use bytes::{Bytes, BytesMut};
use vstd::prelude::*;

use crate::counter::ByteCounter;
use crate::error::DownloadError;
use crate::payload::{append_chunk, buffer_bytes, chunk_bytes};

verus! {

/// A fetch as mathematics sees it.
pub struct FetchState {
    /// The size announced before the body.
    pub expected: nat,
    /// The number of bytes accounted for so far.
    pub fetched: nat,
    /// The bytes accumulated so far, in arrival order.
    pub payload: Seq<u8>,
}

impl FetchState {
    /// A fetch that has received nothing yet.
    pub open spec fn start(expected: nat) -> FetchState {
        FetchState { expected, fetched: 0, payload: Seq::empty() }
    }

    /// The fetch after one more chunk: its length is added to the count and
    /// its bytes go behind those already held.
    pub open spec fn receive(self, chunk: Seq<u8>) -> FetchState {
        FetchState {
            expected: self.expected,
            fetched: self.fetched + chunk.len(),
            payload: self.payload + chunk,
        }
    }

    /// The fetch after a run of chunks, taken in order.
    pub open spec fn receive_all(self, chunks: Seq<Seq<u8>>) -> FetchState
        decreases chunks.len(),
    {
        if chunks.len() == 0 {
            self
        } else {
            self.receive_all(chunks.drop_last()).receive(chunks.last())
        }
    }

    /// The count and the buffer agree.
    pub open spec fn consistent(self) -> bool {
        self.fetched == self.payload.len()
    }

    /// The buffer holds exactly as many bytes as were announced.
    pub open spec fn complete(self) -> bool {
        self.payload.len() == self.expected
    }

    /// How the fetch ends when the stream does: with the payload if it is
    /// complete, and otherwise with the two totals that disagree.
    pub open spec fn outcome(self) -> Result<Seq<u8>, DownloadError> {
        if self.complete() {
            Ok(self.payload)
        } else {
            Err(
                DownloadError::IncompleteTransfer {
                    expected: self.expected as usize,
                    received: self.payload.len() as usize,
                },
            )
        }
    }
}

/// The sum of the lengths of `chunks`.
pub open spec fn total_len(chunks: Seq<Seq<u8>>) -> nat
    decreases chunks.len(),
{
    if chunks.len() == 0 {
        0
    } else {
        total_len(chunks.drop_last()) + chunks.last().len()
    }
}

/// What a run of chunks amounts to: the announced size is untouched, the
/// count grows by the sum of the chunk lengths, and the buffer grows by the
/// chunks laid end to end. A count that agreed with the buffer before the
/// run agrees with it after.
pub proof fn receive_all_accumulates(state: FetchState, chunks: Seq<Seq<u8>>)
    ensures
        state.receive_all(chunks).expected == state.expected,
        state.receive_all(chunks).fetched == state.fetched + total_len(chunks),
        state.receive_all(chunks).payload == state.payload + chunks.flatten(),
        chunks.flatten().len() == total_len(chunks),
        state.consistent() ==> state.receive_all(chunks).consistent(),
    decreases chunks.len(),
{
    if chunks.len() == 0 {
        assert(chunks.flatten() =~= Seq::<u8>::empty());
        assert(state.payload + chunks.flatten() =~= state.payload);
    } else {
        let front = chunks.drop_last();
        let last = chunks.last();
        receive_all_accumulates(state, front);
        assert(chunks =~= front.push(last));
        front.lemma_flatten_push(last);
        assert(chunks.flatten() =~= front.flatten() + last);
        assert(state.payload + front.flatten() + last =~= state.payload + chunks.flatten());
    }
}

/// The sum of the lengths never shrinks as a run of chunks is extended.
pub proof fn total_len_grows(chunks: Seq<Seq<u8>>, shorter: int, longer: int)
    requires
        0 <= shorter <= longer <= chunks.len(),
    ensures
        total_len(chunks.take(shorter)) <= total_len(chunks.take(longer)),
    decreases longer - shorter,
{
    if shorter < longer {
        total_len_grows(chunks, shorter, longer - 1);
        assert(chunks.take(longer).drop_last() =~= chunks.take(longer - 1));
    }
}

/// Chunks whose lengths sum to the announced size complete the fetch: the
/// count and the length of the buffer both end at that size, and the
/// payload handed out is the chunks laid end to end.
pub proof fn exact_total_completes(expected: nat, chunks: Seq<Seq<u8>>)
    requires
        total_len(chunks) == expected,
    ensures
        FetchState::start(expected).receive_all(chunks).fetched == expected,
        FetchState::start(expected).receive_all(chunks).payload.len() == expected,
        FetchState::start(expected).receive_all(chunks).complete(),
        FetchState::start(expected).receive_all(chunks).outcome() == Ok::<Seq<u8>, DownloadError>(
            chunks.flatten(),
        ),
{
    let begin = FetchState::start(expected);
    receive_all_accumulates(begin, chunks);
    assert(begin.payload + chunks.flatten() =~= chunks.flatten());
}

/// Any other total fails the fetch with both totals in the error, and no
/// payload comes out of it.
pub proof fn other_total_fails(expected: nat, chunks: Seq<Seq<u8>>)
    requires
        total_len(chunks) != expected,
    ensures
        FetchState::start(expected).receive_all(chunks).outcome() == Err::<
            Seq<u8>,
            DownloadError,
        >(
            DownloadError::IncompleteTransfer {
                expected: expected as usize,
                received: total_len(chunks) as usize,
            },
        ),
{
    let begin = FetchState::start(expected);
    receive_all_accumulates(begin, chunks);
    assert(begin.payload + chunks.flatten() =~= chunks.flatten());
}

/// The count never decreases: after any prefix of the chunks it is at most
/// what it is after any longer prefix.
pub proof fn fetched_never_decreases(
    expected: nat,
    chunks: Seq<Seq<u8>>,
    earlier: int,
    later: int,
)
    requires
        0 <= earlier <= later <= chunks.len(),
    ensures
        FetchState::start(expected).receive_all(chunks.take(earlier)).fetched
            <= FetchState::start(expected).receive_all(chunks.take(later)).fetched,
{
    let begin = FetchState::start(expected);
    receive_all_accumulates(begin, chunks.take(earlier));
    receive_all_accumulates(begin, chunks.take(later));
    total_len_grows(chunks, earlier, later);
}

/// While the transport delivers no more than was announced, the count
/// stays within the announced size at every point of the fetch, and equals
/// the length of the buffer there.
pub proof fn fetched_stays_within_expected(expected: nat, chunks: Seq<Seq<u8>>, seen: int)
    requires
        total_len(chunks) <= expected,
        0 <= seen <= chunks.len(),
    ensures
        FetchState::start(expected).receive_all(chunks.take(seen)).fetched <= expected,
        FetchState::start(expected).receive_all(chunks.take(seen)).consistent(),
{
    let begin = FetchState::start(expected);
    receive_all_accumulates(begin, chunks.take(seen));
    total_len_grows(chunks, seen, chunks.len() as int);
    assert(chunks.take(chunks.len() as int) =~= chunks);
}

/// A fetch in progress.
///
/// Owns the payload buffer and the writing end of the shared count. The
/// buffer is sized for the announced length when the fetch begins and is
/// handed out only by [`Download::finish`].
pub struct Download {
    expected: usize,
    fetched: usize,
    buffer: BytesMut,
    counter: ByteCounter,
}

impl View for Download {
    type V = FetchState;

    closed spec fn view(&self) -> FetchState {
        FetchState {
            expected: self.expected as nat,
            fetched: self.fetched as nat,
            payload: buffer_bytes(self.buffer),
        }
    }
}

impl Download {
    #[verifier::type_invariant]
    spec fn agree(self) -> bool {
        &&& self.fetched == buffer_bytes(self.buffer).len()
        &&& self.fetched <= isize::MAX
    }

    /// Begins a fetch of `expected` bytes that publishes its progress
    /// through `counter`.
    pub fn begin(expected: usize, counter: ByteCounter) -> (download: Download)
        requires
            expected <= isize::MAX,
        ensures
            download@ == FetchState::start(expected as nat),
            download@.consistent(),
    {
        Download { expected, fetched: 0, buffer: BytesMut::with_capacity(expected), counter }
    }

    /// The size announced for this fetch.
    pub fn expected(&self) -> (expected: usize)
        ensures
            expected == self@.expected,
    {
        self.expected
    }

    /// The number of bytes received so far, which is also the length of
    /// the buffer.
    pub fn fetched(&self) -> (fetched: usize)
        ensures
            fetched == self@.fetched,
            self@.consistent(),
    {
        proof {
            use_type_invariant(self);
        }
        self.fetched
    }

    /// Takes the next chunk of the body: adds its length to the shared
    /// count first, then appends its bytes to the buffer.
    ///
    /// The buffer cannot grow past `isize::MAX` bytes, so the chunk has to
    /// fit under that limit; [`Download::try_receive`] makes the test.
    pub fn receive(self, chunk: Bytes) -> (next: Download)
        requires
            self@.fetched + chunk_bytes(chunk).len() <= isize::MAX,
        ensures
            next@ == self@.receive(chunk_bytes(chunk)),
            next@.consistent(),
    {
        proof {
            use_type_invariant(&self);
        }
        let Download { expected, fetched, mut buffer, counter } = self;
        let length = chunk.len();
        counter.add(length);
        append_chunk(&mut buffer, chunk);
        Download { expected, fetched: fetched + length, buffer, counter }
    }

    /// Takes the next chunk if the buffer can hold it, as
    /// [`Download::receive`] does. A chunk that would carry the buffer past
    /// `isize::MAX` bytes is not taken: the fetch comes back as it was, and
    /// nothing is added to the shared count.
    pub fn try_receive(self, chunk: Bytes) -> (taken: Result<Download, Download>)
        ensures
            taken is Ok <==> self@.fetched + chunk_bytes(chunk).len() <= isize::MAX,
            match taken {
                Ok(next) => next@ == self@.receive(chunk_bytes(chunk)) && next@.consistent(),
                Err(same) => same@ == self@,
            },
    {
        proof {
            use_type_invariant(&self);
        }
        let room = isize::MAX as usize - self.fetched;
        if chunk.len() <= room {
            Ok(self.receive(chunk))
        } else {
            Err(self)
        }
    }

    /// Closes the fetch at the end of the stream. The payload is handed
    /// out only if its length is the announced one; otherwise nothing is,
    /// and the error carries both totals.
    pub fn finish(self) -> (payload: Result<BytesMut, DownloadError>)
        ensures
            payload is Ok <==> self@.complete(),
            match payload {
                Ok(bytes) => self@.outcome() == Ok::<Seq<u8>, DownloadError>(buffer_bytes(bytes)),
                Err(error) => self@.outcome() == Err::<Seq<u8>, DownloadError>(error),
            },
    {
        proof {
            use_type_invariant(&self);
        }
        if self.fetched == self.expected {
            Ok(self.buffer)
        } else {
            Err(DownloadError::IncompleteTransfer { expected: self.expected, received: self.fetched })
        }
    }
}

} // verus!
