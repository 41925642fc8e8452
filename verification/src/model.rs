//! The worker as a state machine over mathematical values: for every state
//! and every input, the state that follows and what is to be done next.

use vstd::prelude::*;
use crate::config::{spec_deeper, RecursionLimit};
use crate::error::{Error, NotifyResult, R};
use crate::event::EventView;
use crate::helpers::spec_path_valid;
use crate::handle::{ERROR_ACCESS_DENIED, ERROR_MORE_DATA, ERROR_OPERATION_ABORTED, HANDLE, INode};
use crate::operations::{Operations, DELETE};
use crate::protocol::{Change, Instruction, Next, Pending, Reaction, Request};
use crate::registry::{spec_register, Watch};

verus! {

/// What is to happen when the calls that tear something down have been made.
#[derive(Clone, PartialEq, Eq, Debug)]
pub enum After {
    /// The instruction is answered with the verdict.
    Reply,
    /// The worker goes back to waiting; a failed verdict goes to the event
    /// stream.
    Wait,
    /// The completion port is closed and the worker stops.
    Shutdown,
    /// The subscription that is under way goes on. A failed verdict ends it
    /// if it concerns the directory that the instruction named (`root`), and
    /// goes to the event stream otherwise. After a verdict of success the
    /// directory `dir`, if there is one, is descended into.
    Subscribe { root: bool, dir: Option<Pending> },
}

/// Where the worker stands between two steps.
#[derive(PartialEq, Eq, Debug)]
pub enum Stage {
    /// Waiting for an instruction or a completion.
    Idle,
    /// A directory is being opened to be watched.
    Opening { dir: Pending, root: bool },
    /// A newly opened directory is being bound to the completion port.
    Binding { inode: INode, dir: Pending, root: bool },
    /// A read is being submitted on a watched directory.
    Reading { inode: INode, then: After },
    /// The directories below a watched one are being listed.
    Listing { dir: Pending },
    /// The path of an `Unwatch` is being opened to learn its identity.
    Probing,
    /// Handles are being cancelled and closed.
    Draining { verdict: R, then: After },
    /// The completion port is being closed.
    Stopping,
    /// The worker has stopped for good.
    Stopped,
}

/// The state of a worker.
pub ghost struct Worker {
    /// Where the worker stands.
    pub stage: Stage,
    /// The watches, by the identity of their directories.
    pub registry: Map<(u32, u64), Watch>,
    /// The directories of the subscription under way that are still to be
    /// opened; the last one is opened first.
    pub todo: Seq<Pending>,
    /// The calls that are still to be made to tear something down; the last
    /// one is made first.
    pub cleanup: Seq<Request>,
}

/// What a worker is built with and never changes.
pub ghost struct Rules {
    pub subscribe: Operations,
    pub follow_symlinks: bool,
    pub limit: RecursionLimit,
    pub port: HANDLE,
}

/// The request that opens `path`.
pub open spec fn open_request(rules: Rules, path: String) -> Request {
    Request::Open { path, follow_symlinks: rules.follow_symlinks }
}

/// The request that submits a read on the directory `inode`.
pub open spec fn read_request(rules: Rules, inode: INode) -> Request {
    Request::Read {
        handle: inode.handle,
        volume: inode.volume,
        index: inode.index,
        subscribe: rules.subscribe,
    }
}

/// The calls that tear down the watches of `list`, as a stack: for each watch
/// its read is cancelled and then its handle closed.
pub open spec fn teardown_all(list: Seq<Watch>) -> Seq<Request>
    decreases list.len(),
{
    if list.len() == 0 {
        Seq::empty()
    } else {
        let handle = list.last().inode.handle;
        teardown_all(list.drop_last()).push(Request::Close { handle }).push(
            Request::Cancel { handle },
        )
    }
}

/// The path of an entry `relative` to the directory `base`: the two joined by
/// one `/`, which is left out where `base` is empty or ends in one.
pub open spec fn spec_join(base: Seq<char>, relative: Seq<char>) -> Seq<char> {
    if base.len() == 0 || base.last() == '/' {
        base + relative
    } else {
        base + seq!['/'] + relative
    }
}

/// The events that the changes of a completed read give rise to: one for each
/// change whose kind is subscribed to, in order, each labelled with the path
/// of the watch and the relative path of the change.
pub open spec fn change_events(base: Seq<char>, subscribe: Operations, changes: Seq<Change>) -> Seq<
    Result<EventView, Error>,
>
    decreases changes.len(),
{
    if changes.len() == 0 {
        Seq::empty()
    } else {
        let earlier = change_events(base, subscribe, changes.drop_last());
        let change = changes.last();
        if subscribe@ & change.operation@ != 0 {
            earlier.push(
                Ok(
                    EventView {
                        path: Some(spec_join(base, change.relative@)),
                        operation: change.operation,
                    },
                ),
            )
        } else {
            earlier
        }
    }
}

/// The directories among `children` that are to be subscribed, given for
/// each child the verdict of the recursion filter; each with the limit `limit`.
pub open spec fn admitted(children: Seq<String>, verdicts: Seq<bool>, limit: RecursionLimit) -> Seq<
    Pending,
>
    decreases children.len(),
{
    if children.len() == 0 || verdicts.len() != children.len() {
        Seq::empty()
    } else {
        let earlier = admitted(children.drop_last(), verdicts.drop_last(), limit);
        if verdicts.last() {
            earlier.push(Pending { path: children.last(), limit })
        } else {
            earlier
        }
    }
}

/// Goes on with the next directory of the subscription under way; with none
/// left the instruction is answered with success.
pub open spec fn advance(rules: Rules, w: Worker, events: Seq<Result<EventView, Error>>) -> (
    Worker,
    Reaction,
) {
    if w.todo.len() == 0 {
        (Worker { stage: Stage::Idle, ..w }, Reaction { events, next: Next::Reply(Ok(())) })
    } else {
        (
            Worker {
                stage: Stage::Opening { dir: w.todo.last(), root: false },
                todo: w.todo.drop_last(),
                ..w
            },
            Reaction { events, next: Next::Call(open_request(rules, w.todo.last().path)) },
        )
    }
}

/// Descends into the watched directory `dir` if its limit allows, and goes on
/// with the next directory otherwise.
pub open spec fn descend(
    rules: Rules,
    w: Worker,
    dir: Pending,
    events: Seq<Result<EventView, Error>>,
) -> (Worker, Reaction) {
    if dir.limit != Some(0usize) {
        (
            Worker { stage: Stage::Listing { dir }, ..w },
            Reaction {
                events,
                next: Next::Call(
                    Request::List { path: dir.path, follow_symlinks: rules.follow_symlinks },
                ),
            },
        )
    } else {
        advance(rules, w, events)
    }
}

/// Acts on the verdict over one directory of a subscription.
pub open spec fn settle(
    rules: Rules,
    w: Worker,
    verdict: R,
    root: bool,
    dir: Option<Pending>,
    events: Seq<Result<EventView, Error>>,
) -> (Worker, Reaction) {
    match verdict {
        Err(e) => if root {
            (
                Worker { stage: Stage::Idle, todo: Seq::empty(), ..w },
                Reaction { events, next: Next::Reply(Err(e)) },
            )
        } else {
            advance(rules, w, events.push(Err(e)))
        },
        Ok(_) => match dir {
            Some(d) => descend(rules, w, d, events),
            None => advance(rules, w, events),
        },
    }
}

/// What follows when nothing is left to tear down.
pub open spec fn finish(
    rules: Rules,
    w: Worker,
    verdict: R,
    then: After,
    events: Seq<Result<EventView, Error>>,
) -> (Worker, Reaction) {
    match then {
        After::Reply => (
            Worker { stage: Stage::Idle, ..w },
            Reaction { events, next: Next::Reply(verdict) },
        ),
        After::Wait => (
            Worker { stage: Stage::Idle, ..w },
            Reaction {
                events: match verdict {
                    Err(e) => events.push(Err(e)),
                    Ok(_) => events,
                },
                next: Next::Wait,
            },
        ),
        After::Shutdown => (
            Worker { stage: Stage::Stopping, ..w },
            Reaction { events, next: Next::Call(Request::Close { handle: rules.port }) },
        ),
        After::Subscribe { root, dir } => settle(rules, w, verdict, root, dir, events),
    }
}

/// Makes the next call of the tear-down, or finishes if none is left.
pub open spec fn drain(
    rules: Rules,
    w: Worker,
    verdict: R,
    then: After,
    events: Seq<Result<EventView, Error>>,
) -> (Worker, Reaction) {
    if w.cleanup.len() > 0 {
        (
            Worker {
                stage: Stage::Draining { verdict, then },
                cleanup: w.cleanup.drop_last(),
                ..w
            },
            Reaction { events, next: Next::Call(w.cleanup.last()) },
        )
    } else {
        finish(rules, w, verdict, then, events)
    }
}

/// The verdict after one more call of a tear-down has answered `res`: the
/// first failure stands, except during shutdown, where failures to cancel or
/// close a watch are passed over.
pub open spec fn merge(verdict: R, then: After, res: R) -> R {
    if then is Shutdown {
        verdict
    } else if verdict is Ok {
        res
    } else {
        verdict
    }
}

/// `after` without the directory to descend into.
pub open spec fn without_descent(then: After) -> After {
    match then {
        After::Subscribe { root, dir } => After::Subscribe { root, dir: None },
        _ => then,
    }
}

/// The result that a failed submission of a read stands for: a refusal of
/// access means that the directory is gone and is no failure.
pub open spec fn read_verdict(e: Error) -> R {
    if e == Error::Io(ERROR_ACCESS_DENIED) {
        Ok(())
    } else {
        Err(e)
    }
}

/// The refusal of a path that cannot be written in the platform's native
/// string form.
pub open spec fn refuse_path(w: Worker) -> (Worker, Reaction) {
    (
        Worker { stage: Stage::Idle, ..w },
        Reaction { events: Seq::empty(), next: Next::Reply(Err(Error::PathInvalid)) },
    )
}

/// A `Watch` instruction begins: the named directory is opened. A path that
/// has no native form is refused with `PathInvalid`.
pub open spec fn add_watch(rules: Rules, w: Worker, path: String) -> (Worker, Reaction) {
    if !spec_path_valid(path@) {
        refuse_path(w)
    } else {
        (
            Worker {
                stage: Stage::Opening { dir: Pending { path, limit: rules.limit }, root: true },
                todo: Seq::empty(),
                ..w
            },
            Reaction { events: Seq::empty(), next: Next::Call(open_request(rules, path)) },
        )
    }
}

/// An `Unwatch` instruction begins: the named directory is opened to learn
/// its identity. A path that has no native form is refused with
/// `PathInvalid`.
pub open spec fn rem_watch(rules: Rules, w: Worker, path: String) -> (Worker, Reaction) {
    if !spec_path_valid(path@) {
        refuse_path(w)
    } else {
        (
            Worker { stage: Stage::Probing, ..w },
            Reaction { events: Seq::empty(), next: Next::Call(open_request(rules, path)) },
        )
    }
}

/// A `Close` instruction begins: the registry is emptied and its watches,
/// which come in the order `order`, are torn down.
pub open spec fn close(rules: Rules, w: Worker, order: Seq<Watch>) -> (Worker, Reaction) {
    drain(
        rules,
        Worker {
            registry: Map::empty(),
            todo: Seq::empty(),
            cleanup: teardown_all(order),
            ..w
        },
        Ok(()),
        After::Shutdown,
        Seq::empty(),
    )
}

/// An instruction arrives. It is taken up only by an idle worker: one that
/// has stopped answers `Closed`, one that is busy answers `Sending`.
pub open spec fn handle_instruction(
    rules: Rules,
    w: Worker,
    instruction: Instruction,
    order: Seq<Watch>,
) -> (Worker, Reaction) {
    match w.stage {
        Stage::Idle => match instruction {
            Instruction::Watch(path) => add_watch(rules, w, path),
            Instruction::Unwatch(path) => rem_watch(rules, w, path),
            Instruction::Close => close(rules, w, order),
        },
        Stage::Stopped => (
            w,
            Reaction { events: Seq::empty(), next: Next::Reply(Err(Error::Closed)) },
        ),
        _ => (w, Reaction { events: Seq::empty(), next: Next::Reply(Err(Error::Sending)) }),
    }
}

/// The directory of a subscription has been opened, or has failed to open.
/// One that is already watched has its second handle closed; a new one is
/// bound to the completion port.
pub open spec fn opened(
    rules: Rules,
    w: Worker,
    dir: Pending,
    root: bool,
    res: NotifyResult<INode>,
) -> (Worker, Reaction) {
    match res {
        Err(e) => settle(rules, w, Err(e), root, None, Seq::empty()),
        Ok(inode) => if w.registry.contains_key(inode.identity()) {
            (
                Worker {
                    stage: Stage::Draining {
                        verdict: Ok(()),
                        then: After::Subscribe { root, dir: Some(dir) },
                    },
                    ..w
                },
                Reaction {
                    events: Seq::empty(),
                    next: Next::Call(Request::Close { handle: inode.handle }),
                },
            )
        } else {
            (
                Worker { stage: Stage::Binding { inode, dir, root }, ..w },
                Reaction {
                    events: Seq::empty(),
                    next: Next::Call(Request::Bind { handle: inode.handle, port: rules.port }),
                },
            )
        },
    }
}

/// The binding of a new directory to the completion port has been answered.
/// On success the directory enters the registry and its first read is
/// submitted; on failure its handle is closed and the failure stands.
pub open spec fn bound(
    rules: Rules,
    w: Worker,
    inode: INode,
    dir: Pending,
    root: bool,
    res: R,
) -> (Worker, Reaction) {
    match res {
        Err(e) => (
            Worker {
                stage: Stage::Draining {
                    verdict: Err(e),
                    then: After::Subscribe { root, dir: None },
                },
                ..w
            },
            Reaction {
                events: Seq::empty(),
                next: Next::Call(Request::Close { handle: inode.handle }),
            },
        ),
        Ok(_) => if w.registry.contains_key(inode.identity()) {
            opened(rules, w, dir, root, Ok(inode))
        } else {
            (
                Worker {
                    stage: Stage::Reading {
                        inode,
                        then: After::Subscribe { root, dir: Some(dir) },
                    },
                    registry: spec_register(w.registry, inode, dir.path),
                    ..w
                },
                Reaction { events: Seq::empty(), next: Next::Call(read_request(rules, inode)) },
            )
        },
    }
}

/// The submission of a read has been answered. A read that was accepted lets
/// the worker go on; one that was refused costs the directory its watch.
pub open spec fn start_read(rules: Rules, w: Worker, inode: INode, then: After, res: R) -> (
    Worker,
    Reaction,
) {
    match res {
        Ok(_) => finish(rules, w, Ok(()), then, Seq::empty()),
        Err(e) => (
            Worker {
                stage: Stage::Draining { verdict: read_verdict(e), then: without_descent(then) },
                registry: w.registry.remove(inode.identity()),
                ..w
            },
            Reaction {
                events: Seq::empty(),
                next: Next::Call(Request::Close { handle: inode.handle }),
            },
        ),
    }
}

/// The directories below a watched one have been listed, or the listing has
/// failed. Those that the filter admits, by `verdicts`, wait to be opened,
/// with the limit one level further down.
pub open spec fn listed(
    rules: Rules,
    w: Worker,
    dir: Pending,
    res: NotifyResult<Seq<String>>,
    verdicts: Seq<bool>,
) -> (Worker, Reaction) {
    match res {
        Err(e) => advance(rules, w, seq![Err(e)]),
        Ok(children) => advance(
            rules,
            Worker { todo: w.todo + admitted(children, verdicts, spec_deeper(dir.limit)), ..w },
            Seq::empty(),
        ),
    }
}

/// The path of an `Unwatch` has been opened, or has failed to open. The
/// handle opened for the question is closed; the watch of the directory, if
/// it has one, leaves the registry and is torn down; if it has none the
/// instruction fails with `NotWatched`.
pub open spec fn probed(rules: Rules, w: Worker, res: NotifyResult<INode>) -> (Worker, Reaction) {
    match res {
        Err(e) => (
            Worker { stage: Stage::Idle, ..w },
            Reaction { events: Seq::empty(), next: Next::Reply(Err(e)) },
        ),
        Ok(inode) => if w.registry.contains_key(inode.identity()) {
            let held = w.registry[inode.identity()].inode.handle;
            (
                Worker {
                    stage: Stage::Draining { verdict: Ok(()), then: After::Reply },
                    registry: w.registry.remove(inode.identity()),
                    cleanup: w.cleanup.push(Request::Close { handle: held }).push(
                        Request::Cancel { handle: held },
                    ),
                    ..w
                },
                Reaction {
                    events: Seq::empty(),
                    next: Next::Call(Request::Close { handle: inode.handle }),
                },
            )
        } else {
            (
                Worker {
                    stage: Stage::Draining { verdict: Err(Error::NotWatched), then: After::Reply },
                    ..w
                },
                Reaction {
                    events: Seq::empty(),
                    next: Next::Call(Request::Close { handle: inode.handle }),
                },
            )
        },
    }
}

/// One call of a tear-down has been answered.
pub open spec fn drained(rules: Rules, w: Worker, verdict: R, then: After, res: R) -> (
    Worker,
    Reaction,
) {
    drain(rules, w, merge(verdict, then, res), then, Seq::empty())
}

/// The closing of the completion port has been answered: the worker stops
/// and the `Close` instruction is answered with that result.
pub open spec fn stopped(w: Worker, res: R) -> (Worker, Reaction) {
    (
        Worker { stage: Stage::Stopped, ..w },
        Reaction { events: Seq::empty(), next: Next::Exit(res) },
    )
}

/// What the operating system answered, with a listing as a sequence.
pub ghost enum Answer {
    Opened(NotifyResult<INode>),
    Done(R),
    Listed(NotifyResult<Seq<String>>),
}

/// The worker is resumed with the answer to the request it made last. An
/// answer of a kind that the worker does not wait for changes nothing.
pub open spec fn resume(rules: Rules, w: Worker, answer: Answer, verdicts: Seq<bool>) -> (
    Worker,
    Reaction,
) {
    match (w.stage, answer) {
        (Stage::Opening { dir, root }, Answer::Opened(res)) => opened(rules, w, dir, root, res),
        (Stage::Binding { inode, dir, root }, Answer::Done(res)) => bound(
            rules,
            w,
            inode,
            dir,
            root,
            res,
        ),
        (Stage::Reading { inode, then }, Answer::Done(res)) => start_read(
            rules,
            w,
            inode,
            then,
            res,
        ),
        (Stage::Listing { dir }, Answer::Listed(res)) => listed(rules, w, dir, res, verdicts),
        (Stage::Probing, Answer::Opened(res)) => probed(rules, w, res),
        (Stage::Draining { verdict, then }, Answer::Done(res)) => drained(
            rules,
            w,
            verdict,
            then,
            res,
        ),
        (Stage::Stopping, Answer::Done(res)) => stopped(w, res),
        _ => (w, Reaction { events: Seq::empty(), next: Next::Wait }),
    }
}

/// The events of a watch that is lost because its read failed with `e`: a
/// refusal of access means that the directory is gone, which is reported as
/// its deletion if deletions are subscribed to; any other failure is
/// reported as it is.
pub open spec fn loss_events(rules: Rules, watch: Watch, e: Error) -> Seq<
    Result<EventView, Error>,
> {
    if e == Error::Io(ERROR_ACCESS_DENIED) {
        if rules.subscribe@ & DELETE != 0 {
            seq![
                Ok(
                    EventView {
                        path: Some(watch.path@),
                        operation: crate::operations::spec_from_bits_truncate(DELETE),
                    },
                ),
            ]
        } else {
            Seq::empty()
        }
    } else {
        seq![Err(e)]
    }
}

/// A read has completed with `status`, `transferred` bytes and the changes
/// `changes`, for the directory with the identity `id`.
///
/// A completion for a directory that is not watched, or one that arrives
/// while the worker is busy, is passed over, and so is a read that was
/// cancelled. A read that failed costs the directory its watch. Otherwise the
/// changes become events, or the loss of changes is reported where nothing
/// was transferred, and the read is submitted again; a read that brought more
/// data than its buffer holds counts as a success.
pub open spec fn handle_completion(
    rules: Rules,
    w: Worker,
    id: (u32, u64),
    status: R,
    transferred: u32,
    changes: Seq<Change>,
) -> (Worker, Reaction) {
    if !(w.stage is Idle) || !w.registry.contains_key(id) {
        (w, Reaction { events: Seq::empty(), next: Next::Wait })
    } else {
        let watch = w.registry[id];
        match status {
            Err(e) if e == Error::Io(ERROR_OPERATION_ABORTED) => (
                w,
                Reaction { events: Seq::empty(), next: Next::Wait },
            ),
            Err(e) if e != Error::Io(ERROR_MORE_DATA) => (
                Worker {
                    stage: Stage::Draining { verdict: Ok(()), then: After::Wait },
                    registry: w.registry.remove(id),
                    cleanup: w.cleanup.push(Request::Close { handle: watch.inode.handle }),
                    ..w
                },
                Reaction {
                    events: loss_events(rules, watch, e),
                    next: Next::Call(Request::Cancel { handle: watch.inode.handle }),
                },
            ),
            _ => (
                Worker { stage: Stage::Reading { inode: watch.inode, then: After::Wait }, ..w },
                Reaction {
                    events: if transferred == 0 {
                        seq![Err(Error::Overflow)]
                    } else {
                        change_events(watch.path@, rules.subscribe, changes)
                    },
                    next: Next::Call(read_request(rules, watch.inode)),
                },
            ),
        }
    }
}

} // verus!
