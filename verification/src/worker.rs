//! The worker of a notifier: it owns the watch registry and decides, step by
//! step, what is asked of the operating system. It makes no call itself. The
//! thread that runs it makes each call the worker asks for and resumes the
//! worker with the answer.

use vstd::prelude::*;
use vstd::string::*;
use crate::config::{deeper, Configuration};
use crate::error::{Error, EventResult, NotifyResult, R};
use crate::event::{event_result_view, events_view, Event};
use crate::handle::{
    ERROR_ACCESS_DENIED,
    ERROR_MORE_DATA,
    ERROR_OPERATION_ABORTED,
    HANDLE,
    INode,
};
use crate::helpers::path_valid;
use crate::model;
use crate::model::{After, Answer, Rules, Stage, Worker};
use crate::operations::{Operations, ALL, DELETE};
use crate::protocol::{Change, Completion, Instruction, Next, Outcome, Pending, Request, Response};
use crate::registry::{lists_all, Watch, WatchRegistry};

verus! {

/// The path of an entry `relative` to the directory `base`.
pub fn join(base: &str, relative: &str) -> (r: String)
    ensures
        r@ == model::spec_join(base@, relative@),
{
    let mut joined = base.to_owned();
    let n: usize = base.unicode_len();
    if n > 0 && base.get_char(n - 1) != '/' {
        proof {
            reveal_strlit("/");
        }
        joined.append("/");
    }
    joined.append(relative);
    joined
}

/// The answer that a response stands for.
pub open spec fn answer_of(response: Response) -> Answer {
    match response {
        Response::Opened(res) => Answer::Opened(res),
        Response::Done(res) => Answer::Done(res),
        Response::Listed(res) => Answer::Listed(
            match res {
                Ok(children) => Ok(children@),
                Err(e) => Err(e),
            },
        ),
    }
}

/// Whether `order` is an order in which the watches of `w` can come out of
/// the registry when `instruction` is taken up: for a `Close` that an idle
/// worker takes up it holds each watch once; otherwise it is of no account.
pub open spec fn drains(w: Worker, instruction: Instruction, order: Seq<Watch>) -> bool {
    w.stage is Idle && instruction is Close ==> lists_all(order, w.registry)
}

/// The state of the worker thread.
pub struct ThreadState<F: Fn(&str) -> bool> {
    config: Configuration<F>,
    port: HANDLE,
    watches: WatchRegistry,
    stage: Stage,
    todo: Vec<Pending>,
    cleanup: Vec<Request>,
}

impl<F: Fn(&str) -> bool> View for ThreadState<F> {
    type V = Worker;

    closed spec fn view(&self) -> Worker {
        Worker {
            stage: self.stage,
            registry: self.watches@,
            todo: self.todo@,
            cleanup: self.cleanup@,
        }
    }
}

impl<F: Fn(&str) -> bool> ThreadState<F> {
    /// The configuration that the worker was built with.
    pub closed spec fn config(&self) -> Configuration<F> {
        self.config
    }

    /// The completion port that the worker was built with.
    pub closed spec fn port(&self) -> HANDLE {
        self.port
    }

    /// What the worker was built with, as far as its steps depend on it.
    pub open spec fn rules(&self) -> Rules {
        Rules {
            subscribe: self.config().subscribe,
            follow_symlinks: self.config().follow_symlinks,
            limit: self.config().recursion_limit,
            port: self.port(),
        }
    }

    /// The worker's invariant: the recursion filter may be called on every
    /// path, and every watch is registered under its own identity.
    pub closed spec fn wf(&self) -> bool {
        &&& self.config.wf()
        &&& self.watches.wf()
    }

    /// `self` is a later state of the worker `before`.
    pub open spec fn follows(&self, before: &Self) -> bool {
        &&& self.config() == before.config()
        &&& self.port() == before.port()
        &&& before.wf() ==> self.wf()
    }

    /// Whether `verdicts` holds, for each directory of a listing that the
    /// worker waits for and `response` brings, an answer that the recursion
    /// filter can give for it. For any other response it is of no account.
    pub open spec fn heard(&self, response: Response, verdicts: Seq<bool>) -> bool {
        match response {
            Response::Listed(res) => self@.stage is Listing ==> self.listens(res, verdicts),
            _ => true,
        }
    }

    /// Whether `verdicts` holds, for each directory that `res` lists, an
    /// answer that the recursion filter can give for it.
    pub open spec fn listens(&self, res: NotifyResult<Vec<String>>, verdicts: Seq<bool>) -> bool {
        res matches Ok(children) ==> {
            &&& verdicts.len() == children@.len()
            &&& forall|k: int|
                0 <= k < children@.len() ==> self.config().admits(
                    (#[trigger] children@[k])@,
                    verdicts[k],
                )
        }
    }

    /// An idle worker without watches.
    pub fn new(config: Configuration<F>, port: HANDLE) -> (r: Self)
        requires
            config.wf(),
        ensures
            r.wf(),
            r.config() == config,
            r.port() == port,
            r@ == (Worker {
                stage: Stage::Idle,
                registry: Map::empty(),
                todo: Seq::empty(),
                cleanup: Seq::empty(),
            }),
    {
        ThreadState {
            config,
            port,
            watches: WatchRegistry::new(),
            stage: Stage::Idle,
            todo: Vec::new(),
            cleanup: Vec::new(),
        }
    }

    /// Whether the worker waits for an instruction or a completion.
    pub fn is_idle(&self) -> (r: bool)
        ensures
            r == (self@.stage is Idle),
    {
        match &self.stage {
            Stage::Idle => true,
            _ => false,
        }
    }

    /// Whether the worker has stopped for good.
    pub fn is_stopped(&self) -> (r: bool)
        ensures
            r == (self@.stage is Stopped),
    {
        match &self.stage {
            Stage::Stopped => true,
            _ => false,
        }
    }

    /// The watch of the directory that `inode` identifies, if it has one.
    pub fn watch_entry(&self, inode: &INode) -> (r: Option<&Watch>)
        ensures
            match r {
                Some(w) => self@.registry.contains_key(inode.identity()) && *w
                    == self@.registry[inode.identity()],
                None => !self@.registry.contains_key(inode.identity()),
            },
    {
        self.watches.watch_entry(inode)
    }

    fn open_request(&self, path: &String) -> (r: Request)
        ensures
            r == model::open_request(self.rules(), *path),
    {
        Request::Open { path: path.clone(), follow_symlinks: self.config.follow_symlinks }
    }

    fn read_request(&self, inode: INode) -> (r: Request)
        ensures
            r == model::read_request(self.rules(), inode),
    {
        Request::Read {
            handle: inode.handle,
            volume: inode.volume,
            index: inode.index,
            subscribe: self.config.subscribe,
        }
    }

    fn advance(&mut self, events: Vec<EventResult>) -> (out: Outcome)
        ensures
            final(self).follows(old(self)),
            (final(self)@, out@) == model::advance(
                old(self).rules(),
                old(self)@,
                events_view(events@),
            ),
    {
        match self.todo.pop() {
            None => {
                self.stage = Stage::Idle;
                Outcome { events, next: Next::Reply(Ok(())) }
            },
            Some(dir) => {
                let request = self.open_request(&dir.path);
                self.stage = Stage::Opening { dir, root: false };
                Outcome { events, next: Next::Call(request) }
            },
        }
    }

    fn descend(&mut self, dir: Pending, events: Vec<EventResult>) -> (out: Outcome)
        ensures
            final(self).follows(old(self)),
            (final(self)@, out@) == model::descend(
                old(self).rules(),
                old(self)@,
                dir,
                events_view(events@),
            ),
    {
        let stop = match dir.limit {
            Some(n) => n == 0,
            None => false,
        };
        if stop {
            self.advance(events)
        } else {
            let request = Request::List {
                path: dir.path.clone(),
                follow_symlinks: self.config.follow_symlinks,
            };
            self.stage = Stage::Listing { dir };
            Outcome { events, next: Next::Call(request) }
        }
    }

    fn settle(
        &mut self,
        verdict: R,
        root: bool,
        dir: Option<Pending>,
        events: Vec<EventResult>,
    ) -> (out: Outcome)
        ensures
            final(self).follows(old(self)),
            (final(self)@, out@) == model::settle(
                old(self).rules(),
                old(self)@,
                verdict,
                root,
                dir,
                events_view(events@),
            ),
    {
        match verdict {
            Err(e) => {
                if root {
                    self.stage = Stage::Idle;
                    self.todo.clear();
                    Outcome { events, next: Next::Reply(Err(e)) }
                } else {
                    let events = self.event_error(events, e);
                    self.advance(events)
                }
            },
            Ok(_) => match dir {
                Some(d) => self.descend(d, events),
                None => self.advance(events),
            },
        }
    }

    fn finish(&mut self, verdict: R, then: After, events: Vec<EventResult>) -> (out: Outcome)
        ensures
            final(self).follows(old(self)),
            (final(self)@, out@) == model::finish(
                old(self).rules(),
                old(self)@,
                verdict,
                then,
                events_view(events@),
            ),
    {
        match then {
            After::Reply => {
                self.stage = Stage::Idle;
                Outcome { events, next: Next::Reply(verdict) }
            },
            After::Wait => {
                self.stage = Stage::Idle;
                let events = match verdict {
                    Err(e) => self.event_error(events, e),
                    Ok(_) => events,
                };
                Outcome { events, next: Next::Wait }
            },
            After::Shutdown => {
                self.stage = Stage::Stopping;
                Outcome { events, next: Next::Call(Request::Close { handle: self.port }) }
            },
            After::Subscribe { root, dir } => self.settle(verdict, root, dir, events),
        }
    }

    fn drain(&mut self, verdict: R, then: After, events: Vec<EventResult>) -> (out: Outcome)
        ensures
            final(self).follows(old(self)),
            (final(self)@, out@) == model::drain(
                old(self).rules(),
                old(self)@,
                verdict,
                then,
                events_view(events@),
            ),
    {
        match self.cleanup.pop() {
            Some(request) => {
                self.stage = Stage::Draining { verdict, then };
                Outcome { events, next: Next::Call(request) }
            },
            None => self.finish(verdict, then, events),
        }
    }

    /// Drops the watch of the directory that `inode` identifies, if it has
    /// one. Its handle is left to the caller to close.
    pub fn delete_watch(&mut self, inode: &INode)
        ensures
            final(self).follows(old(self)),
            final(self)@ == (Worker {
                registry: old(self)@.registry.remove(inode.identity()),
                ..old(self)@
            }),
    {
        let _ = self.watches.remove(inode.volume, inode.index);
    }

    fn refuse_path(&mut self) -> (out: Outcome)
        ensures
            final(self).follows(old(self)),
            (final(self)@, out@) == model::refuse_path(old(self)@),
    {
        self.stage = Stage::Idle;
        let out = Outcome { events: Vec::new(), next: Next::Reply(Err(Error::PathInvalid)) };
        assert(out@.events =~= Seq::empty());
        out
    }

    /// Begins a `Watch` instruction: asks for the directory at `path` to be
    /// opened. A path that has no native form is refused with `PathInvalid`.
    pub fn add_watch(&mut self, path: String) -> (out: Outcome)
        ensures
            final(self).follows(old(self)),
            (final(self)@, out@) == model::add_watch(old(self).rules(), old(self)@, path),
    {
        if !path_valid(path.as_str()) {
            return self.refuse_path();
        }
        let request = self.open_request(&path);
        self.todo.clear();
        self.stage = Stage::Opening {
            dir: Pending { path, limit: self.config.recursion_limit },
            root: true,
        };
        let out = Outcome { events: Vec::new(), next: Next::Call(request) };
        assert(out@.events =~= Seq::empty());
        out
    }

    /// Begins an `Unwatch` instruction: asks for the directory at `path` to be
    /// opened, to learn its identity. A path that has no native form is
    /// refused with `PathInvalid`.
    pub fn rem_watch(&mut self, path: String) -> (out: Outcome)
        ensures
            final(self).follows(old(self)),
            (final(self)@, out@) == model::rem_watch(old(self).rules(), old(self)@, path),
    {
        if !path_valid(path.as_str()) {
            return self.refuse_path();
        }
        let request = self.open_request(&path);
        self.stage = Stage::Probing;
        let out = Outcome { events: Vec::new(), next: Next::Call(request) };
        assert(out@.events =~= Seq::empty());
        out
    }

    /// Begins a `Close` instruction: empties the registry and asks for each
    /// of its watches to be cancelled and closed, in some order, and then for
    /// the completion port to be closed.
    pub fn close(&mut self) -> (out: Outcome)
        requires
            old(self).wf(),
        ensures
            final(self).follows(old(self)),
            exists|order: Seq<Watch>| #[trigger]
                lists_all(order, old(self)@.registry) && (final(self)@, out@) == model::close(
                    old(self).rules(),
                    old(self)@,
                    order,
                ),
    {
        let drained = self.watches.close_all();
        self.todo.clear();
        self.cleanup.clear();
        let mut i: usize = 0;
        while i < drained.len()
            invariant
                i <= drained.len(),
                self.follows(old(self)),
                self.wf(),
                self.stage == old(self).stage,
                self.watches@ == Map::<(u32, u64), Watch>::empty(),
                self.todo@ == Seq::<Pending>::empty(),
                self.cleanup@ == model::teardown_all(drained@.take(i as int)),
            decreases drained.len() - i,
        {
            let handle = drained[i].inode.handle;
            self.cleanup.push(Request::Close { handle });
            self.cleanup.push(Request::Cancel { handle });
            assert(drained@.take(i + 1).drop_last() =~= drained@.take(i as int));
            i += 1;
        }
        assert(drained@.take(i as int) =~= drained@);
        let events: Vec<EventResult> = Vec::new();
        assert(events_view(events@) =~= Seq::empty());
        let out = self.drain(Ok(()), After::Shutdown, events);
        assert(lists_all(drained@, old(self)@.registry));
        out
    }

    /// Takes up an instruction. Only an idle worker does: one that has
    /// stopped answers `Closed`, one that is busy answers `Sending`.
    pub fn handle_instruction(&mut self, instruction: Instruction) -> (out: Outcome)
        requires
            old(self).wf(),
        ensures
            final(self).follows(old(self)),
            exists|order: Seq<Watch>| #[trigger]
                drains(old(self)@, instruction, order) && (final(self)@, out@)
                    == model::handle_instruction(
                    old(self).rules(),
                    old(self)@,
                    instruction,
                    order,
                ),
    {
        let refusal = match &self.stage {
            Stage::Idle => None,
            Stage::Stopped => Some(Error::Closed),
            _ => Some(Error::Sending),
        };
        match refusal {
            Some(e) => {
                let out = Outcome { events: Vec::new(), next: Next::Reply(Err(e)) };
                assert(out@.events =~= Seq::empty());
                assert(drains(old(self)@, instruction, Seq::empty()));
                out
            },
            None => match instruction {
                Instruction::Watch(path) => {
                    let out = self.add_watch(path);
                    assert(drains(old(self)@, instruction, Seq::empty()));
                    out
                },
                Instruction::Unwatch(path) => {
                    let out = self.rem_watch(path);
                    assert(drains(old(self)@, instruction, Seq::empty()));
                    out
                },
                Instruction::Close => {
                    let out = self.close();
                    proof {
                        let order = choose|order: Seq<Watch>| #[trigger]
                            lists_all(order, old(self)@.registry) && (self@, out@) == model::close(
                                old(self).rules(),
                                old(self)@,
                                order,
                            );
                        assert(drains(old(self)@, instruction, order));
                    }
                    out
                },
            },
        }
    }

    fn opened(&mut self, dir: Pending, root: bool, res: NotifyResult<INode>) -> (out: Outcome)
        ensures
            final(self).follows(old(self)),
            (final(self)@, out@) == model::opened(old(self).rules(), old(self)@, dir, root, res),
    {
        let events: Vec<EventResult> = Vec::new();
        assert(events_view(events@) =~= Seq::empty());
        match res {
            Err(e) => self.settle(Err(e), root, None, events),
            Ok(inode) => {
                if self.watches.watch_entry(&inode).is_some() {
                    self.stage = Stage::Draining {
                        verdict: Ok(()),
                        then: After::Subscribe { root, dir: Some(dir) },
                    };
                    Outcome { events, next: Next::Call(Request::Close { handle: inode.handle }) }
                } else {
                    self.stage = Stage::Binding { inode, dir, root };
                    Outcome {
                        events,
                        next: Next::Call(Request::Bind { handle: inode.handle, port: self.port }),
                    }
                }
            },
        }
    }

    fn bound(&mut self, inode: INode, dir: Pending, root: bool, res: R) -> (out: Outcome)
        ensures
            final(self).follows(old(self)),
            (final(self)@, out@) == model::bound(
                old(self).rules(),
                old(self)@,
                inode,
                dir,
                root,
                res,
            ),
    {
        match res {
            Err(e) => {
                let events: Vec<EventResult> = Vec::new();
                assert(events_view(events@) =~= Seq::empty());
                self.stage = Stage::Draining {
                    verdict: Err(e),
                    then: After::Subscribe { root, dir: None },
                };
                Outcome { events, next: Next::Call(Request::Close { handle: inode.handle }) }
            },
            Ok(_) => {
                if self.watches.watch_entry(&inode).is_some() {
                    self.opened(dir, root, Ok(inode))
                } else {
                    let events: Vec<EventResult> = Vec::new();
                    assert(events_view(events@) =~= Seq::empty());
                    let _ = self.watches.register(inode, dir.path.clone());
                    let request = self.read_request(inode);
                    self.stage = Stage::Reading {
                        inode,
                        then: After::Subscribe { root, dir: Some(dir) },
                    };
                    Outcome { events, next: Next::Call(request) }
                }
            },
        }
    }

    /// Acts on the answer to the submission of a read on the watched
    /// directory `inode`. A read that was accepted lets the worker go on with
    /// `then`. One that was refused costs the directory its watch: its handle
    /// is closed, and the refusal counts as a failure unless it is a refusal
    /// of access, which means that the directory is gone.
    pub fn start_read(&mut self, inode: INode, then: After, res: R) -> (out: Outcome)
        ensures
            final(self).follows(old(self)),
            (final(self)@, out@) == model::start_read(
                old(self).rules(),
                old(self)@,
                inode,
                then,
                res,
            ),
    {
        let events: Vec<EventResult> = Vec::new();
        assert(events_view(events@) =~= Seq::empty());
        match res {
            Ok(_) => self.finish(Ok(()), then, events),
            Err(e) => {
                self.delete_watch(&inode);
                let verdict: R = if e == Error::Io(ERROR_ACCESS_DENIED) {
                    Ok(())
                } else {
                    Err(e)
                };
                let then = match then {
                    After::Subscribe { root, dir } => After::Subscribe { root, dir: None },
                    other => other,
                };
                self.stage = Stage::Draining { verdict, then };
                Outcome { events, next: Next::Call(Request::Close { handle: inode.handle }) }
            },
        }
    }

    fn listed(&mut self, dir: Pending, res: NotifyResult<Vec<String>>) -> (out: Outcome)
        requires
            old(self).wf(),
        ensures
            final(self).follows(old(self)),
            exists|verdicts: Seq<bool>| #[trigger]
                old(self).listens(res, verdicts) && (final(self)@, out@)
                    == model::listed(
                    old(self).rules(),
                    old(self)@,
                    dir,
                    match res {
                        Ok(children) => Ok(children@),
                        Err(e) => Err(e),
                    },
                    verdicts,
                ),
    {
        let events: Vec<EventResult> = Vec::new();
        assert(events_view(events@) =~= Seq::empty());
        match res {
            Err(e) => {
                let events = self.event_error(events, e);
                let out = self.advance(events);
                assert(old(self).listens(res, Seq::empty()));
                out
            },
            Ok(children) => {
                let limit = deeper(dir.limit);
                let ghost mut verdicts: Seq<bool> = Seq::empty();
                let mut i: usize = 0;
                while i < children.len()
                    invariant
                        i <= children.len(),
                        self.follows(old(self)),
                        self.wf(),
                        self.stage == old(self).stage,
                        self.watches@ == old(self).watches@,
                        self.cleanup@ == old(self).cleanup@,
                        verdicts.len() == i,
                        forall|k: int|
                            0 <= k < i ==> self.config().admits(
                                (#[trigger] children@[k])@,
                                verdicts[k],
                            ),
                        self.todo@ == old(self).todo@ + model::admitted(
                            children@.take(i as int),
                            verdicts,
                            limit,
                        ),
                    decreases children.len() - i,
                {
                    let verdict = self.config.descend(children[i].as_str());
                    proof {
                        let ghost longer = verdicts.push(verdict);
                        assert(children@.take(i + 1).drop_last() =~= children@.take(i as int));
                        assert(longer.drop_last() =~= verdicts);
                        verdicts = longer;
                    }
                    if verdict {
                        self.todo.push(Pending { path: children[i].clone(), limit });
                    }
                    i += 1;
                }
                assert(children@.take(i as int) =~= children@);
                let out = self.advance(events);
                assert(old(self).listens(res, verdicts));
                out
            },
        }
    }

    fn probed(&mut self, res: NotifyResult<INode>) -> (out: Outcome)
        ensures
            final(self).follows(old(self)),
            (final(self)@, out@) == model::probed(old(self).rules(), old(self)@, res),
    {
        let events: Vec<EventResult> = Vec::new();
        assert(events_view(events@) =~= Seq::empty());
        match res {
            Err(e) => {
                self.stage = Stage::Idle;
                Outcome { events, next: Next::Reply(Err(e)) }
            },
            Ok(inode) => {
                match self.watches.remove(inode.volume, inode.index) {
                    Ok(watch) => {
                        let held = watch.inode.handle;
                        self.cleanup.push(Request::Close { handle: held });
                        self.cleanup.push(Request::Cancel { handle: held });
                        self.stage = Stage::Draining { verdict: Ok(()), then: After::Reply };
                    },
                    Err(_) => {
                        self.stage = Stage::Draining {
                            verdict: Err(Error::NotWatched),
                            then: After::Reply,
                        };
                        assert(self.watches@ =~= old(self).watches@);
                    },
                }
                Outcome { events, next: Next::Call(Request::Close { handle: inode.handle }) }
            },
        }
    }

    fn drained(&mut self, verdict: R, then: After, res: R) -> (out: Outcome)
        ensures
            final(self).follows(old(self)),
            (final(self)@, out@) == model::drained(
                old(self).rules(),
                old(self)@,
                verdict,
                then,
                res,
            ),
    {
        let events: Vec<EventResult> = Vec::new();
        assert(events_view(events@) =~= Seq::empty());
        let lenient = match &then {
            After::Shutdown => true,
            _ => false,
        };
        let merged: R = if lenient {
            verdict
        } else {
            match verdict {
                Ok(_) => res,
                Err(e) => Err(e),
            }
        };
        self.drain(merged, then, events)
    }

    fn stopped(&mut self, res: R) -> (out: Outcome)
        ensures
            final(self).follows(old(self)),
            (final(self)@, out@) == model::stopped(old(self)@, res),
    {
        let events: Vec<EventResult> = Vec::new();
        assert(events_view(events@) =~= Seq::empty());
        self.stage = Stage::Stopped;
        Outcome { events, next: Next::Exit(res) }
    }

    /// Resumes the worker with the answer to the request it made last. An
    /// answer of a kind that the worker does not wait for changes nothing.
    pub fn resume(&mut self, response: Response) -> (out: Outcome)
        requires
            old(self).wf(),
        ensures
            final(self).follows(old(self)),
            exists|verdicts: Seq<bool>| #[trigger]
                old(self).heard(response, verdicts) && (final(self)@, out@) == model::resume(
                    old(self).rules(),
                    old(self)@,
                    answer_of(response),
                    verdicts,
                ),
    {
        let mut stage = Stage::Idle;
        std::mem::swap(&mut self.stage, &mut stage);
        match (stage, response) {
            (Stage::Opening { dir, root }, Response::Opened(res)) => {
                let out = self.opened(dir, root, res);
                assert(old(self).heard(response, Seq::empty()));
                out
            },
            (Stage::Binding { inode, dir, root }, Response::Done(res)) => {
                let out = self.bound(inode, dir, root, res);
                assert(old(self).heard(response, Seq::empty()));
                out
            },
            (Stage::Reading { inode, then }, Response::Done(res)) => {
                let out = self.start_read(inode, then, res);
                assert(old(self).heard(response, Seq::empty()));
                out
            },
            (Stage::Listing { dir }, Response::Listed(res)) => {
                let ghost entry = *self;
                let out = self.listed(dir, res);
                proof {
                    let verdicts = choose|verdicts: Seq<bool>| #[trigger]
                        entry.listens(res, verdicts) && (self@, out@)
                            == model::listed(
                            entry.rules(),
                            entry@,
                            dir,
                            match res {
                                Ok(children) => Ok(children@),
                                Err(e) => Err(e),
                            },
                            verdicts,
                        );
                    assert(old(self).heard(response, verdicts));
                }
                out
            },
            (Stage::Probing, Response::Opened(res)) => {
                let out = self.probed(res);
                assert(old(self).heard(response, Seq::empty()));
                out
            },
            (Stage::Draining { verdict, then }, Response::Done(res)) => {
                let out = self.drained(verdict, then, res);
                out
            },
            (Stage::Stopping, Response::Done(res)) => {
                let out = self.stopped(res);
                out
            },
            (stage, response) => {
                self.stage = stage;
                let out = Outcome { events: Vec::new(), next: Next::Wait };
                assert(out@.events =~= Seq::empty());
                assert(old(self).heard(response, Seq::empty()));
                out
            },
        }
    }

    fn change_events(&self, base: &String, changes: &Vec<Change>) -> (events: Vec<EventResult>)
        ensures
            events_view(events@) == model::change_events(base@, self.rules().subscribe, changes@),
    {
        let mut events: Vec<EventResult> = Vec::new();
        let mut i: usize = 0;
        while i < changes.len()
            invariant
                i <= changes.len(),
                events_view(events@) == model::change_events(
                    base@,
                    self.rules().subscribe,
                    changes@.take(i as int),
                ),
            decreases changes.len() - i,
        {
            assert(changes@.take(i + 1).drop_last() =~= changes@.take(i as int));
            let change = &changes[i];
            if self.config.subscribe.intersects(change.operation) {
                let path = join(base.as_str(), change.relative.as_str());
                events = self.event(events, Ok(Event::new(Some(path), change.operation)));
            }
            i += 1;
        }
        assert(changes@.take(i as int) =~= changes@);
        events
    }

    fn loss_events(&self, watch: &Watch, e: Error) -> (events: Vec<EventResult>)
        ensures
            events_view(events@) == model::loss_events(self.rules(), *watch, e),
    {
        let events: Vec<EventResult> = Vec::new();
        if e == Error::Io(ERROR_ACCESS_DENIED) {
            let deleted = Operations::from_bits_truncate(DELETE);
            let subscribed: u32 = self.config.subscribe.bits();
            assert((subscribed & (DELETE & ALL) != 0) == (subscribed & DELETE != 0))
                by (bit_vector);
            if self.config.subscribe.intersects(deleted) {
                let events = self.event(events, Ok(Event::new(Some(watch.path.clone()), deleted)));
                events
            } else {
                events
            }
        } else {
            let events = self.event_error(events, e);
            events
        }
    }

    /// Acts on a completed read.
    ///
    /// A completion for a directory that is not watched, or one that arrives
    /// while the worker is busy, is passed over, and so is a read that was
    /// cancelled. A read that failed costs the directory its watch: the
    /// failure goes to the event stream, or the deletion of the directory
    /// where access was refused, and the handle is cancelled and closed.
    /// Otherwise the changes become events, or `Overflow` is reported where
    /// nothing was transferred, and the read is submitted again; a read that
    /// brought more data than its buffer holds counts as a success.
    pub fn handle_completion(&mut self, completion: Completion) -> (out: Outcome)
        ensures
            final(self).follows(old(self)),
            (final(self)@, out@) == model::handle_completion(
                old(self).rules(),
                old(self)@,
                (completion.volume, completion.index),
                completion.status,
                completion.transferred,
                completion.changes@,
            ),
    {
        let found = if self.is_idle() {
            match self.watches.get(completion.volume, completion.index) {
                Some(watch) => Some(Watch { inode: watch.inode, path: watch.path.clone() }),
                None => None,
            }
        } else {
            None
        };
        match found {
            None => {
                let out = Outcome { events: Vec::new(), next: Next::Wait };
                assert(out@.events =~= Seq::empty());
                out
            },
            Some(watch) => {
                let failure = match completion.status {
                    Ok(_) => None,
                    Err(e) => if e == Error::Io(ERROR_MORE_DATA) {
                        None
                    } else {
                        Some(e)
                    },
                };
                match failure {
                    Some(e) => {
                        if e == Error::Io(ERROR_OPERATION_ABORTED) {
                            let out = Outcome { events: Vec::new(), next: Next::Wait };
                            assert(out@.events =~= Seq::empty());
                            out
                        } else {
                            let events = self.loss_events(&watch, e);
                            let _ = self.watches.remove(completion.volume, completion.index);
                            self.cleanup.push(Request::Close { handle: watch.inode.handle });
                            self.stage = Stage::Draining { verdict: Ok(()), then: After::Wait };
                            Outcome {
                                events,
                                next: Next::Call(Request::Cancel { handle: watch.inode.handle }),
                            }
                        }
                    },
                    None => {
                        let events = if completion.transferred == 0 {
                            let events: Vec<EventResult> = Vec::new();
                            let events = self.event_error(events, Error::Overflow);
                            assert(events_view(events@) =~= seq![Err(Error::Overflow)]);
                            events
                        } else {
                            self.change_events(&watch.path, &completion.changes)
                        };
                        let request = self.read_request(watch.inode);
                        self.stage = Stage::Reading { inode: watch.inode, then: After::Wait };
                        Outcome { events, next: Next::Call(request) }
                    },
                }
            },
        }
    }

    /// Puts `er` on the event stream, behind `events`.
    pub fn event(&self, events: Vec<EventResult>, er: EventResult) -> (r: Vec<EventResult>)
        ensures
            r@ == events@.push(er),
            events_view(r@) == events_view(events@).push(event_result_view(er)),
    {
        let mut longer = events;
        longer.push(er);
        longer
    }

    /// Puts the failure `error` on the event stream, behind `events`.
    pub fn event_error(&self, events: Vec<EventResult>, error: Error) -> (r: Vec<EventResult>)
        ensures
            r@ == events@.push(Err(error)),
            events_view(r@) == events_view(events@).push(Err(error)),
    {
        self.event(events, Err(error))
    }
}

} // verus!
