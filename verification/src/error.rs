//! The failures a notifier reports, and the result types built on them.

use vstd::prelude::*;
use crate::event::Event;

verus! {

/// Everything that can go wrong in a notifier.
#[derive(Clone, Copy, PartialEq, Eq, Debug, Structural)]
pub enum Error {
    /// The operating system refused a call; the value is its error code.
    Io(i32),
    /// The path cannot be written in the platform's native string form.
    PathInvalid,
    /// The notifier was used after it had been closed.
    Closed,
    /// The path to forget is not being watched.
    NotWatched,
    /// An instruction or its reply could not be handed to the other thread.
    Sending,
    /// The worker thread panicked.
    ThreadPanic,
    /// A lock shared between threads was poisoned.
    LockFailure,
    /// The platform does not offer the operation.
    NotImplemented,
    /// The operating system dropped changes because its queue was full.
    Overflow,
}

/// The result of an operation that may fail with an `Error`.
pub type NotifyResult<T> = Result<T, Error>;

/// What travels on the event stream: a change, or a failure of the engine.
pub type EventResult = NotifyResult<Event>;

/// The result of an operation that yields nothing but success or failure.
pub type R = NotifyResult<()>;

} // verus!
