//! The outcome of polling an operation once.

use vstd::prelude::*;

verus! {

/// What one poll of an operation gave: its output, or nothing yet.
#[derive(Debug, PartialEq, Eq)]
pub enum Polled<T> {
    /// The operation completed with this output.
    Ready(T),
    /// The operation cannot complete yet; the caller is woken when polling
    /// again may make progress.
    Pending,
}

/// What one step of a stream gave: an item, nothing yet, or nothing but
/// reason to step again at once.
#[derive(Debug, PartialEq, Eq)]
pub enum Advance<T> {
    /// The step gave this.
    Ready(T),
    /// The step gave nothing, and the next step may: what the stream is fed
    /// from was ready, so that nobody will be woken for it. The caller steps
    /// again.
    Again,
    /// The step gave nothing because what the stream is fed from had
    /// nothing; the caller is woken when it has.
    Pending,
}

impl<T> Polled<T> {
    /// Tells whether the operation completed.
    pub fn is_ready(&self) -> (ready: bool)
        ensures
            ready == (self is Ready),
    {
        match self {
            Polled::Ready(_) => true,
            Polled::Pending => false,
        }
    }

    /// Tells whether the operation is still waiting.
    pub fn is_pending(&self) -> (pending: bool)
        ensures
            pending == (self is Pending),
    {
        match self {
            Polled::Ready(_) => false,
            Polled::Pending => true,
        }
    }
}

} // verus!
