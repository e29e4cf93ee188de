//! The count of bytes received so far, shared between the fetch that adds
//! to it and the reporter that reads it.
//!
//! The count lives in one atomic integer. The two ends are separate types:
//! a [`ByteCounter`] can only add, and is not cloneable, so a count has one
//! writer; a [`CountReader`] can only load. No lock and no channel is
//! involved.
//!
//! Which count an end is on is part of its contract: a reader made from a
//! counter is on that counter's count. What a load returns depends on how
//! far the writer has come by then, and nothing about the loaded value is
//! claimed in this module: the fetch keeps its own exact record of what it
//! has added.

use std::sync::atomic::{AtomicUsize, Ordering};
use std::sync::Arc;
use vstd::prelude::*;

verus! {

/// The writing end of a shared count.
pub struct ByteCounter {
    shared: Arc<AtomicUsize>,
}

/// A reading end of a shared count.
pub struct CountReader {
    shared: Arc<AtomicUsize>,
}

/// `Arc::clone` returns another pointer to the same allocation, so the
/// clone points at the very atomic integer that the original points at.
#[verifier::external_body]
fn share(shared: &Arc<AtomicUsize>) -> (another: Arc<AtomicUsize>)
    ensures
        another == *shared,
{
    Arc::clone(shared)
}

impl ByteCounter {
    /// The atomic integer this end adds to. It stands for the count itself,
    /// not for the number held in it at any moment.
    pub closed spec fn shared_count(&self) -> AtomicUsize {
        *self.shared
    }

    /// A fresh count, starting at zero.
    pub fn new() -> ByteCounter {
        ByteCounter { shared: Arc::new(AtomicUsize::new(0)) }
    }

    /// A reading end on this very count, so that its loads draw on what
    /// this end adds. Any number may be handed out.
    pub fn reader(&self) -> (reader: CountReader)
        ensures
            reader.shared_count() == self.shared_count(),
    {
        CountReader { shared: share(&self.shared) }
    }

    /// Adds `bytes` to the count in one atomic step.
    pub fn add(&self, bytes: usize) {
        let _ = self.shared.fetch_add(bytes, Ordering::SeqCst);
    }
}

impl CountReader {
    /// The atomic integer this end loads from.
    pub closed spec fn shared_count(&self) -> AtomicUsize {
        *self.shared
    }

    /// Loads the count as it stands now.
    pub fn load(&self) -> usize {
        self.shared.load(Ordering::SeqCst)
    }
}

} // verus!
