//! What passes between the worker and the thread that runs it: instructions
//! in, requests to the operating system out, their responses back in, and
//! replies and events out.

use vstd::prelude::*;
use crate::config::RecursionLimit;
use crate::error::{Error, EventResult, NotifyResult, R};
use crate::event::{events_view, EventView};
use crate::handle::{HANDLE, INode};
use crate::operations::Operations;

verus! {

/// A command that a caller sends to the worker.
#[derive(Clone, PartialEq, Eq, Debug)]
pub enum Instruction {
    /// Tear down every watch and stop.
    Close,
    /// Watch the directory at the path, and those below it as far as the
    /// configuration says.
    Watch(String),
    /// Stop watching the directory at the path.
    Unwatch(String),
}

/// A call into the operating system that the worker wants made. The thread
/// that runs the worker makes the call and hands its result back as a
/// `Response`.
#[derive(Clone, PartialEq, Eq, Debug)]
pub enum Request {
    /// Open the directory at `path` for watching and find out its identity.
    /// Answered by `Response::Opened`.
    Open { path: String, follow_symlinks: bool },
    /// Associate the open directory `handle` with the completion port `port`.
    /// Answered by `Response::Done`.
    Bind { handle: HANDLE, port: HANDLE },
    /// Submit an asynchronous read of the changes in the open directory
    /// `handle`; its completion is to be reported under `volume` and `index`.
    /// Answered by `Response::Done`.
    Read { handle: HANDLE, volume: u32, index: u64, subscribe: Operations },
    /// Cancel the pending read of `handle`. Answered by `Response::Done`.
    Cancel { handle: HANDLE },
    /// Close `handle`. Answered by `Response::Done`.
    Close { handle: HANDLE },
    /// List the directories immediately below `path`, by their full paths.
    /// Answered by `Response::Listed`.
    List { path: String, follow_symlinks: bool },
}

/// What the operating system answered to a `Request`.
#[derive(PartialEq, Eq, Debug)]
pub enum Response {
    /// The answer to `Request::Open`.
    Opened(NotifyResult<INode>),
    /// The answer to a request that yields nothing but success or failure.
    Done(R),
    /// The answer to `Request::List`.
    Listed(NotifyResult<Vec<String>>),
}

/// One change that a completed read reports.
#[derive(Clone, PartialEq, Eq, Debug)]
pub struct Change {
    /// The path of the changed entry, relative to the watched directory.
    pub relative: String,
    /// What happened to it.
    pub operation: Operations,
}

/// A completed asynchronous read.
#[derive(PartialEq, Eq, Debug)]
pub struct Completion {
    /// The identity of the directory whose read completed.
    pub volume: u32,
    pub index: u64,
    /// Whether the read succeeded.
    pub status: R,
    /// The number of bytes that the read delivered.
    pub transferred: u32,
    /// The changes decoded from those bytes, in the order reported.
    pub changes: Vec<Change>,
}

/// A directory that is still to be subscribed, with the number of levels that
/// may be descended below it.
#[derive(Clone, PartialEq, Eq, Debug)]
pub struct Pending {
    pub path: String,
    pub limit: RecursionLimit,
}

/// What the thread that runs the worker has to do next.
#[derive(PartialEq, Eq, Debug)]
pub enum Next {
    /// Make the call and resume the worker with its response.
    Call(Request),
    /// The instruction is done: send the result to its caller.
    Reply(R),
    /// The worker has shut down: send the result to the caller and stop.
    Exit(R),
    /// Nothing; wait for the next completion or instruction.
    Wait,
}

/// What one step of the worker yields: events for the event stream, to be
/// sent in order, and then what to do next.
#[derive(PartialEq, Eq, Debug)]
pub struct Outcome {
    pub events: Vec<EventResult>,
    pub next: Next,
}

/// The mathematical value of an `Outcome`.
pub ghost struct Reaction {
    pub events: Seq<Result<EventView, Error>>,
    pub next: Next,
}

impl View for Outcome {
    type V = Reaction;

    open spec fn view(&self) -> Reaction {
        Reaction { events: events_view(self.events@), next: self.next }
    }
}

} // verus!
