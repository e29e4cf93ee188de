//! Core of an unattended asset fetcher: decide whether a staged copy can be
//! reused, accumulate a streamed body while publishing progress, report that
//! progress on a timer, and check the transfer and the write that follows it.
//!
//! The crate performs no I/O. A caller feeds it what the transport and the
//! file system delivered and carries out what it answers.

pub mod cache;
pub mod counter;
pub mod error;
pub mod fetch;
pub mod payload;
pub mod persist;
pub mod progress;
pub mod response;
