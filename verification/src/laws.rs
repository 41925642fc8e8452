//! What holds of every run of a notifier, proved from the state machine of
//! the worker and from the life cycle of the handle.

use vstd::prelude::*;
use crate::config::spec_deeper;
use crate::error::{Error, R};
use crate::event::EventView;
use crate::operations::Operations;
use crate::handle::INode;
use crate::helpers::spec_path_valid;
use crate::model::{
    admitted,
    advance,
    bound,
    change_events,
    descend,
    handle_completion,
    handle_instruction,
    merge,
    open_request,
    opened,
    read_request,
    resume,
    spec_join,
    teardown_all,
    After,
    Answer,
    Rules,
    Stage,
    Worker,
};
use crate::notifier::{spec_close, spec_enforce_open, spec_joined, Lifecycle};
use crate::protocol::{Change, Instruction, Next, Pending, Reaction, Request};
use crate::registry::{handles_of, keyed_by_identity, lists_all, Watch};

verus! {

/// The worker after it has been resumed with each of `answers` in turn, all
/// of them answers to requests that yield nothing but success or failure.
pub open spec fn feed(rules: Rules, w: Worker, answers: Seq<R>) -> Worker
    decreases answers.len(),
{
    if answers.len() == 0 {
        w
    } else {
        feed(
            rules,
            resume(rules, w, Answer::Done(answers.first()), Seq::empty()).0,
            answers.drop_first(),
        )
    }
}

/// A worker that is tearing something down, or has done so and waits.
pub open spec fn winding_down(w: Worker) -> bool {
    ||| w.stage is Idle
    ||| w.stage matches Stage::Draining { verdict, then } && (then is Reply || then is Wait)
}

/// While a worker tears something down for an instruction or after a lost
/// watch, no answer to its calls changes the registry.
pub proof fn law_teardown_keeps_registry(rules: Rules, w: Worker, answers: Seq<R>)
    requires
        winding_down(w),
    ensures
        winding_down(feed(rules, w, answers)),
        feed(rules, w, answers).registry == w.registry,
    decreases answers.len(),
{
    if answers.len() > 0 {
        let next = resume(rules, w, Answer::Done(answers.first()), Seq::empty()).0;
        law_teardown_keeps_registry(rules, next, answers.drop_first());
    }
}

/// A `Watch` of a directory that is not yet watched, whose calls all
/// succeed, leaves the directory in the registry, under its identity, with
/// the handle it was opened with and the path it was named by.
pub proof fn law_watch_registers(rules: Rules, w: Worker, path: String, inode: INode)
    requires
        w.stage is Idle,
        spec_path_valid(path@),
        !w.registry.contains_key(inode.identity()),
    ensures
        ({
            let w1 = handle_instruction(rules, w, Instruction::Watch(path), Seq::empty()).0;
            let w2 = resume(rules, w1, Answer::Opened(Ok(inode)), Seq::empty()).0;
            let w3 = resume(rules, w2, Answer::Done(Ok(())), Seq::empty()).0;
            let w4 = resume(rules, w3, Answer::Done(Ok(())), Seq::empty()).0;
            &&& w3.registry == w.registry.insert(inode.identity(), Watch { inode, path })
            &&& w4.registry == w3.registry
        }),
{
}

/// When an `Unwatch` has run its course, the registry holds no watch of the
/// directory that the path led to, whatever it held before and whatever the
/// calls that tear the watch down answer. In particular a `Watch` followed by
/// an `Unwatch` of the same directory leaves no entry for it.
pub proof fn law_unwatch_forgets(
    rules: Rules,
    w: Worker,
    path: String,
    probe: INode,
    answers: Seq<R>,
)
    requires
        w.stage is Idle,
        spec_path_valid(path@),
    ensures
        ({
            let w1 = handle_instruction(rules, w, Instruction::Unwatch(path), Seq::empty()).0;
            let w2 = resume(rules, w1, Answer::Opened(Ok(probe)), Seq::empty()).0;
            let w3 = feed(rules, w2, answers);
            &&& !w3.registry.contains_key(probe.identity())
            &&& w3.registry == w.registry.remove(probe.identity())
        }),
{
    let w1 = handle_instruction(rules, w, Instruction::Unwatch(path), Seq::empty()).0;
    let w2 = resume(rules, w1, Answer::Opened(Ok(probe)), Seq::empty()).0;
    law_teardown_keeps_registry(rules, w2, answers);
}

/// An `Unwatch` asks for the handle that was opened to identify the
/// directory to be closed, then for the read of the watch to be cancelled
/// and for its handle to be closed, and then answers with success. If the
/// directory is not watched it asks for the first only and answers
/// `NotWatched`.
pub proof fn law_unwatch_closes(
    rules: Rules,
    w: Worker,
    path: String,
    probe: INode,
    a: R,
    b: R,
    c: R,
)
    requires
        w.stage is Idle,
        w.cleanup.len() == 0,
        spec_path_valid(path@),
    ensures
        ({
            let w1 = handle_instruction(rules, w, Instruction::Unwatch(path), Seq::empty()).0;
            let (w2, r2) = resume(rules, w1, Answer::Opened(Ok(probe)), Seq::empty());
            let (w3, r3) = resume(rules, w2, Answer::Done(a), Seq::empty());
            let (w4, r4) = resume(rules, w3, Answer::Done(b), Seq::empty());
            let (w5, r5) = resume(rules, w4, Answer::Done(c), Seq::empty());
            &&& r2.next == Next::Call(Request::Close { handle: probe.handle })
            &&& if w.registry.contains_key(probe.identity()) {
                let held = w.registry[probe.identity()].inode.handle;
                &&& r3.next == Next::Call(Request::Cancel { handle: held })
                &&& r4.next == Next::Call(Request::Close { handle: held })
                &&& r5.next == Next::Reply(
                    merge(merge(merge(Ok(()), After::Reply, a), After::Reply, b), After::Reply, c),
                )
                &&& w5.stage is Idle
            } else {
                &&& r3.next == Next::Reply(Err(Error::NotWatched))
                &&& w3.stage is Idle
            }
        }),
{
    if w.registry.contains_key(probe.identity()) {
        let held = w.registry[probe.identity()].inode.handle;
        let stack = w.cleanup.push(Request::Close { handle: held }).push(
            Request::Cancel { handle: held },
        );
        assert(stack.drop_last() =~= seq![Request::Close { handle: held }]);
        assert(stack.drop_last().drop_last() =~= Seq::<Request>::empty());
    }
}

/// A second `Watch` that leads to a directory which is already watched, by
/// whatever path, adds no watch and keeps no handle: the registry stays as
/// it is, with the one entry and the one handle of the first, and the handle
/// that the second opened is closed at once.
pub proof fn law_one_watch_per_directory(
    rules: Rules,
    w: Worker,
    first: INode,
    second: INode,
    one: Pending,
    other: Pending,
    root: bool,
)
    requires
        first.identity() == second.identity(),
        !w.registry.contains_key(first.identity()),
    ensures
        ({
            let w1 = bound(rules, w, first, one, root, Ok(())).0;
            let (w2, r2) = opened(rules, w1, other, root, Ok(second));
            &&& w1.registry == w.registry.insert(
                first.identity(),
                Watch { inode: first, path: one.path },
            )
            &&& w2.registry == w1.registry
            &&& w2.registry[second.identity()].inode.handle == first.handle
            &&& handles_of(w2.registry) == handles_of(w.registry).insert(first.handle)
            &&& r2.next == Next::Call(Request::Close { handle: second.handle })
        }),
{
    let w1 = bound(rules, w, first, one, root, Ok(())).0;
    let id = first.identity();
    assert forall|h| handles_of(w.registry).insert(first.handle).contains(h) implies handles_of(
        w1.registry,
    ).contains(h) by {
        if h == first.handle {
            assert(w1.registry.contains_key(id) && w1.registry[id].inode.handle == h);
        } else {
            let other_id = choose|other_id: (u32, u64)| #[trigger]
                w.registry.contains_key(other_id) && w.registry[other_id].inode.handle == h;
            assert(w1.registry.contains_key(other_id) && w1.registry[other_id].inode.handle == h);
        }
    }
    assert forall|h| handles_of(w1.registry).contains(h) implies handles_of(w.registry).insert(
        first.handle,
    ).contains(h) by {
        let some_id = choose|some_id: (u32, u64)| #[trigger]
            w1.registry.contains_key(some_id) && w1.registry[some_id].inode.handle == h;
        if some_id != id {
            assert(w.registry.contains_key(some_id) && w.registry[some_id].inode.handle == h);
        }
    }
    assert(handles_of(w1.registry) =~= handles_of(w.registry).insert(first.handle));
}

/// Whatever the worker is resumed with while a subscription is under way,
/// a directory that is watched stays watched by the handle it has: a step
/// adds watches for other directories or takes a watch away, and never
/// replaces one.
pub proof fn law_no_watch_replaced(
    rules: Rules,
    w: Worker,
    answer: Answer,
    verdicts: Seq<bool>,
    id: (u32, u64),
)
    requires
        w.registry.contains_key(id),
    ensures
        ({
            let after = resume(rules, w, answer, verdicts).0.registry;
            after.contains_key(id) ==> after[id] == w.registry[id]
        }),
{
}

/// Every step of the worker keeps the registry in order: if every watch was
/// stored under the identity of its own directory before, so it is after.
pub proof fn law_registry_stays_keyed(
    rules: Rules,
    w: Worker,
    instruction: Instruction,
    order: Seq<Watch>,
    answer: Answer,
    verdicts: Seq<bool>,
    id: (u32, u64),
    status: R,
    transferred: u32,
    changes: Seq<Change>,
)
    requires
        keyed_by_identity(w.registry),
    ensures
        keyed_by_identity(handle_instruction(rules, w, instruction, order).0.registry),
        keyed_by_identity(resume(rules, w, answer, verdicts).0.registry),
        keyed_by_identity(handle_completion(rules, w, id, status, transferred, changes).0.registry),
{
}

/// Closing is final. A notifier that has been closed, or is closing, refuses
/// every further `watch`, `unwatch` and `close` with `Closed`, and nothing
/// opens it again.
pub proof fn law_closed_for_good(state: Lifecycle, panicked: bool)
    requires
        state != Lifecycle::Open,
    ensures
        spec_enforce_open(state) == Err::<(), Error>(Error::Closed),
        spec_close(state) == (state, Err::<(), Error>(Error::Closed)),
        spec_joined(state, panicked).0 != Lifecycle::Open,
{
}

/// A `close` that succeeds leaves the notifier closed: once the worker has
/// been joined without a panic the whole call returns `Ok`, the notifier is
/// in its last state, and a second `close` fails with `Closed`.
pub proof fn law_close_then_close()
    ensures
        ({
            let (closing, first) = spec_close(Lifecycle::Open);
            let (closed, joined) = spec_joined(closing, false);
            &&& first is Ok
            &&& closing != Lifecycle::Open
            &&& joined is Ok
            &&& closed == Lifecycle::Closed
            &&& spec_close(closing) == (closing, Err::<(), Error>(Error::Closed))
            &&& spec_close(closed) == (closed, Err::<(), Error>(Error::Closed))
            &&& spec_enforce_open(closed) == Err::<(), Error>(Error::Closed)
        }),
{
}

/// The calls that `teardown_all` holds for the watches of `order`: for each
/// watch one that cancels its read and one that closes its handle, and no
/// call for any other handle.
pub proof fn law_teardown_covers(order: Seq<Watch>)
    ensures
        teardown_all(order).len() == 2 * order.len(),
        forall|k: int|
            0 <= k < order.len() ==> {
                &&& #[trigger] teardown_all(order)[2 * k] == (Request::Close {
                    handle: order[k].inode.handle,
                })
                &&& teardown_all(order)[2 * k + 1] == (Request::Cancel {
                    handle: order[k].inode.handle,
                })
            },
    decreases order.len(),
{
    if order.len() > 0 {
        law_teardown_covers(order.drop_last());
        assert forall|k: int| 0 <= k < order.len() implies {
            &&& #[trigger] teardown_all(order)[2 * k] == (Request::Close {
                handle: order[k].inode.handle,
            })
            &&& teardown_all(order)[2 * k + 1] == (Request::Cancel {
                handle: order[k].inode.handle,
            })
        } by {
            if k < order.len() - 1 {
                assert(order.drop_last()[k] == order[k]);
            }
        }
    }
}

/// A `Close` that an idle worker takes up empties the registry at once and
/// asks for every watch to be torn down: for each watch that the registry
/// held, a call that cancels its read and a call that closes its handle
/// stand among the calls that the worker makes next.
pub proof fn law_close_tears_down_all(rules: Rules, w: Worker, order: Seq<Watch>, id: (u32, u64))
    requires
        w.stage is Idle,
        lists_all(order, w.registry),
        w.registry.contains_key(id),
    ensures
        ({
            let (after, reaction) = handle_instruction(rules, w, Instruction::Close, order);
            let calls = after.cleanup.push(reaction.next->Call_0);
            &&& after.registry == Map::<(u32, u64), Watch>::empty()
            &&& reaction.next is Call
            &&& calls.contains(Request::Cancel { handle: w.registry[id].inode.handle })
            &&& calls.contains(Request::Close { handle: w.registry[id].inode.handle })
        }),
{
    let (after, reaction) = handle_instruction(rules, w, Instruction::Close, order);
    law_teardown_covers(order);
    let stack = teardown_all(order);
    assert(order.contains(w.registry[id]));
    let k = choose|k: int| 0 <= k < order.len() && order[k] == w.registry[id];
    let calls = after.cleanup.push(reaction.next->Call_0);
    assert(calls =~= stack);
    assert(stack[2 * k] == Request::Close { handle: w.registry[id].inode.handle });
    assert(stack[2 * k + 1] == Request::Cancel { handle: w.registry[id].inode.handle });
}

/// A shutdown runs to its end whatever the calls answer: a worker that tears
/// its watches down for a `Close` stops once each of the calls that are left
/// has been answered, and then the call that closes the completion port.
pub proof fn law_shutdown_completes(rules: Rules, w: Worker, answers: Seq<R>)
    requires
        w.stage matches Stage::Draining { verdict, then } && then is Shutdown,
        answers.len() == w.cleanup.len() + 2,
    ensures
        feed(rules, w, answers).stage is Stopped,
        feed(rules, w, answers).registry == w.registry,
    decreases w.cleanup.len(),
{
    let next = resume(rules, w, Answer::Done(answers.first()), Seq::empty()).0;
    let rest = answers.drop_first();
    if w.cleanup.len() > 0 {
        law_shutdown_completes(rules, next, rest);
    } else {
        let last = resume(rules, next, Answer::Done(rest.first()), Seq::empty()).0;
        assert(feed(rules, next, rest) == feed(rules, last, rest.drop_first()));
    }
}

/// A path that has no native form is refused before anything is asked of
/// the operating system, and the worker stays as it is.
pub proof fn law_invalid_path_refused(rules: Rules, w: Worker, path: String)
    requires
        w.stage is Idle,
        !spec_path_valid(path@),
    ensures
        handle_instruction(rules, w, Instruction::Watch(path), Seq::empty()) == (
            w,
            Reaction { events: Seq::empty(), next: Next::Reply(Err(Error::PathInvalid)) },
        ),
        handle_instruction(rules, w, Instruction::Unwatch(path), Seq::empty()) == (
            w,
            Reaction { events: Seq::empty(), next: Next::Reply(Err(Error::PathInvalid)) },
        ),
{
}

/// A worker that has stopped stays stopped, and answers every instruction
/// with `Closed`.
pub proof fn law_stopped_for_good(
    rules: Rules,
    w: Worker,
    instruction: Instruction,
    order: Seq<Watch>,
    answer: Answer,
    verdicts: Seq<bool>,
)
    requires
        w.stage is Stopped,
    ensures
        handle_instruction(rules, w, instruction, order) == (
            w,
            Reaction { events: Seq::empty(), next: Next::Reply(Err(Error::Closed)) },
        ),
        resume(rules, w, answer, verdicts).0 == w,
{
}

/// The events of a completed read keep the order in which the operating
/// system reported the changes: where every change is of a kind that is
/// subscribed to, the events are the changes one for one, each under the path
/// of the watch joined with the relative path of the change.
pub proof fn law_events_in_order(base: Seq<char>, subscribe: Operations, changes: Seq<Change>)
    requires
        forall|k: int|
            0 <= k < changes.len() ==> subscribe@ & (#[trigger] changes[k]).operation@ != 0,
    ensures
        change_events(base, subscribe, changes).len() == changes.len(),
        forall|k: int|
            0 <= k < changes.len() ==> #[trigger] change_events(base, subscribe, changes)[k]
                == Ok::<EventView, Error>(
                EventView {
                    path: Some(spec_join(base, changes[k].relative@)),
                    operation: changes[k].operation,
                },
            ),
    decreases changes.len(),
{
    if changes.len() > 0 {
        law_events_in_order(base, subscribe, changes.drop_last());
    }
}

/// A change of a kind that is not subscribed to gives rise to no event: the
/// events of a read are no more than its changes, and none if no change is
/// of a subscribed kind.
pub proof fn law_unsubscribed_dropped(base: Seq<char>, subscribe: Operations, changes: Seq<Change>)
    ensures
        change_events(base, subscribe, changes).len() <= changes.len(),
        (forall|k: int|
            0 <= k < changes.len() ==> subscribe@ & (#[trigger] changes[k]).operation@ == 0)
            ==> change_events(base, subscribe, changes).len() == 0,
    decreases changes.len(),
{
    if changes.len() > 0 {
        law_unsubscribed_dropped(base, subscribe, changes.drop_last());
    }
}

/// With a recursion limit of zero a `Watch` whose calls succeed watches the
/// directory it names and nothing else: it never asks for a listing, opens
/// no second directory, and answers as soon as the read on the directory
/// has been accepted.
pub proof fn law_limit_zero_watches_root_only(rules: Rules, w: Worker, path: String, inode: INode)
    requires
        rules.limit == Some(0usize),
        w.stage is Idle,
        spec_path_valid(path@),
        !w.registry.contains_key(inode.identity()),
    ensures
        ({
            let (w1, r1) = handle_instruction(rules, w, Instruction::Watch(path), Seq::empty());
            let (w2, r2) = resume(rules, w1, Answer::Opened(Ok(inode)), Seq::empty());
            let (w3, r3) = resume(rules, w2, Answer::Done(Ok(())), Seq::empty());
            let (w4, r4) = resume(rules, w3, Answer::Done(Ok(())), Seq::empty());
            &&& r1.next == Next::Call(open_request(rules, path))
            &&& r2.next == Next::Call(Request::Bind { handle: inode.handle, port: rules.port })
            &&& r3.next == Next::Call(read_request(rules, inode))
            &&& r4.next == Next::Reply(Ok(()))
            &&& w4.stage is Idle
            &&& w4.registry == w.registry.insert(inode.identity(), Watch { inode, path })
        }),
{
}

/// A directory whose limit is zero is never listed, so nothing below it is
/// found, let alone watched.
pub proof fn law_no_descent_at_limit_zero(
    rules: Rules,
    w: Worker,
    dir: Pending,
    events: Seq<Result<EventView, Error>>,
)
    requires
        dir.limit == Some(0usize),
    ensures
        descend(rules, w, dir, events) == advance(rules, w, events),
        !(descend(rules, w, dir, events).1.next is Call && descend(
            rules,
            w,
            dir,
            events,
        ).1.next->Call_0 is List),
{
}

/// The directories that a listing schedules are among those listed, each
/// one admitted by the filter, and each with the limit of one level further
/// down: a limit of `n + 1` becomes `n`, and no limit stays no limit. So
/// below a directory watched with the limit `n` nothing deeper than `n`
/// levels is ever opened.
pub proof fn law_children_one_level_down(
    children: Seq<String>,
    verdicts: Seq<bool>,
    dir: Pending,
)
    requires
        verdicts.len() == children.len(),
    ensures
        forall|j: int|
            0 <= j < admitted(children, verdicts, spec_deeper(dir.limit)).len() ==> {
                let p = #[trigger] admitted(children, verdicts, spec_deeper(dir.limit))[j];
                &&& p.limit == spec_deeper(dir.limit)
                &&& exists|k: int| 0 <= k < children.len() && verdicts[k] && children[k] == p.path
            },
        match dir.limit {
            Some(n) => n > 0 ==> spec_deeper(dir.limit) == Some((n - 1) as usize),
            None => spec_deeper(dir.limit) is None,
        },
    decreases children.len(),
{
    if children.len() > 0 {
        law_children_one_level_down(children.drop_last(), verdicts.drop_last(), dir);
        let limit = spec_deeper(dir.limit);
        let earlier = admitted(children.drop_last(), verdicts.drop_last(), limit);
        assert forall|j: int| 0 <= j < admitted(children, verdicts, limit).len() implies {
            let p = #[trigger] admitted(children, verdicts, limit)[j];
            &&& p.limit == limit
            &&& exists|k: int| 0 <= k < children.len() && verdicts[k] && children[k] == p.path
        } by {
            let p = admitted(children, verdicts, limit)[j];
            if j < earlier.len() {
                let k = choose|k: int|
                    0 <= k < children.drop_last().len() && verdicts.drop_last()[k]
                        && children.drop_last()[k] == p.path;
                assert(verdicts[k] && children[k] == p.path);
            } else {
                let k = children.len() - 1;
                assert(verdicts[k] && children[k] == p.path);
            }
        }
    }
}

/// A directory that the recursion filter refuses is not scheduled: it is
/// never opened, never listed, and so nothing below it is ever watched.
pub proof fn law_refused_not_scheduled(
    children: Seq<String>,
    verdicts: Seq<bool>,
    limit: crate::config::RecursionLimit,
    refused: String,
)
    requires
        verdicts.len() == children.len(),
        forall|k: int| 0 <= k < children.len() && children[k] == refused ==> !verdicts[k],
    ensures
        forall|j: int|
            0 <= j < admitted(children, verdicts, limit).len() ==> (#[trigger] admitted(
                children,
                verdicts,
                limit,
            )[j]).path != refused,
    decreases children.len(),
{
    if children.len() > 0 {
        assert forall|k: int|
            0 <= k < children.drop_last().len() && children.drop_last()[k]
                == refused implies !verdicts.drop_last()[k] by {
            assert(children[k] == refused);
        }
        law_refused_not_scheduled(children.drop_last(), verdicts.drop_last(), limit, refused);
    }
}

} // verus!
