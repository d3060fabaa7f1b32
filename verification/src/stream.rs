use crate::poll::Polled;
use vstd::prelude::*;

verus! {

/// What a native read or write reports: the number of bytes moved, the
/// socket's error, or that the socket is not ready.
pub type Transfer<E> = Polled<Result<usize, E>>;

/// What a native flush or close reports: success, the socket's error, or that
/// the socket is not ready.
pub type Completion<E> = Polled<Result<(), E>>;

/// The duplex stream adapter: it owns the native socket handle of one
/// accepted connection and nothing else, so no byte and no result outlives
/// the call that produced it.
#[derive(Debug, PartialEq, Eq)]
pub struct HyperStream<S>(pub S);

impl<S> HyperStream<S> {
    /// The answer to a read, given what the socket's own read into the
    /// caller's buffer reported. It is that report, untouched: the same byte
    /// count (zero included, which tells the engine that the peer has closed),
    /// the same error, the same not-ready signal.
    pub fn poll_read<E>(&self, native: Transfer<E>) -> (out: Transfer<E>)
        ensures
            out == native,
    {
        native
    }

    /// The answer to a write, given what the socket's own write from the
    /// caller's buffer reported: that report, untouched.
    pub fn poll_write<E>(&self, native: Transfer<E>) -> (out: Transfer<E>)
        ensures
            out == native,
    {
        native
    }

    /// The answer to a flush, given what the socket's own flush reported: that
    /// report, untouched.
    pub fn poll_flush<E>(&self, native: Completion<E>) -> (out: Completion<E>)
        ensures
            out == native,
    {
        native
    }

    /// The answer to a shutdown, given what the socket's own close reported:
    /// that report, untouched. There is no precondition, so a connection may
    /// be shut down again after it was closed; the second answer is whatever
    /// the socket says to a second close, be it success or its own error.
    pub fn poll_shutdown<E>(&self, native: Completion<E>) -> (out: Completion<E>)
        ensures
            out == native,
    {
        native
    }
}

} // verus!
