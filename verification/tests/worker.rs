use fsnotify::config::Configuration;
use fsnotify::error::{Error, EventResult};
use fsnotify::event::Event;
use fsnotify::handle::{
    INode, ERROR_ACCESS_DENIED, ERROR_MORE_DATA, ERROR_OPERATION_ABORTED, HANDLE,
};
use fsnotify::model::After;
use fsnotify::operations::{Operations, CREATE, DELETE, MODIFY};
use fsnotify::protocol::{Change, Completion, Instruction, Next, Outcome, Request, Response};
use fsnotify::worker::ThreadState;

type Filter = fn(&str) -> bool;

const PORT: HANDLE = HANDLE(1000);

/// A directory of the pretended file system.
struct Dir {
    path: &'static str,
    volume: u32,
    index: u64,
    children: Vec<&'static str>,
}

/// A pretended operating system: it answers the requests of a worker from a
/// fixed tree of directories and keeps book of the handles that are open.
struct Os {
    dirs: Vec<Dir>,
    next_handle: isize,
    open: Vec<isize>,
    reading: Vec<isize>,
    calls: Vec<Request>,
    fail_bind: Option<i32>,
    fail_read: Option<i32>,
    fail_list: Option<i32>,
    fail_close: Option<i32>,
}

impl Os {
    fn new(dirs: Vec<Dir>) -> Os {
        Os {
            dirs,
            next_handle: 1,
            open: vec![PORT.0],
            reading: vec![],
            calls: vec![],
            fail_bind: None,
            fail_read: None,
            fail_list: None,
            fail_close: None,
        }
    }

    fn done(failure: Option<i32>) -> Response {
        match failure {
            Some(code) => Response::Done(Err(Error::Io(code))),
            None => Response::Done(Ok(())),
        }
    }

    fn perform(&mut self, request: &Request) -> Response {
        self.calls.push(request.clone());
        match request {
            Request::Open { path, .. } => {
                match self.dirs.iter().find(|d| d.path == path.as_str()) {
                    None => Response::Opened(Err(Error::Io(2))),
                    Some(dir) => {
                        let handle = self.next_handle;
                        self.next_handle += 1;
                        self.open.push(handle);
                        Response::Opened(Ok(INode {
                            handle: HANDLE(handle),
                            volume: dir.volume,
                            index: dir.index,
                        }))
                    }
                }
            }
            Request::Bind { handle, port } => {
                assert!(self.open.contains(&handle.0));
                assert_eq!(*port, PORT);
                Os::done(self.fail_bind)
            }
            Request::Read { handle, .. } => {
                assert!(self.open.contains(&handle.0));
                self.reading.retain(|h| *h != handle.0);
                if self.fail_read.is_none() {
                    self.reading.push(handle.0);
                }
                Os::done(self.fail_read)
            }
            Request::Cancel { handle } => {
                assert!(self.open.contains(&handle.0));
                self.reading.retain(|h| *h != handle.0);
                Response::Done(Ok(()))
            }
            Request::Close { handle } => {
                assert!(self.open.contains(&handle.0), "closed twice, or never opened");
                assert!(!self.reading.contains(&handle.0), "closed with a read pending");
                self.open.retain(|h| *h != handle.0);
                Os::done(self.fail_close)
            }
            Request::List { path, .. } => match self.fail_list {
                Some(code) => Response::Listed(Err(Error::Io(code))),
                None => {
                    let dir = self.dirs.iter().find(|d| d.path == path.as_str()).unwrap();
                    Response::Listed(Ok(dir.children.iter().map(|c| c.to_string()).collect()))
                }
            },
        }
    }

    fn opened_paths(&self) -> Vec<String> {
        let mut paths = vec![];
        for call in &self.calls {
            if let Request::Open { path, .. } = call {
                paths.push(path.clone());
            }
        }
        paths
    }

    fn listed_paths(&self) -> Vec<String> {
        let mut paths = vec![];
        for call in &self.calls {
            if let Request::List { path, .. } = call {
                paths.push(path.clone());
            }
        }
        paths
    }

    fn watched_handles(&self) -> Vec<isize> {
        self.open.iter().cloned().filter(|h| *h != PORT.0).collect()
    }
}

/// Makes every call that the worker asks for until it asks for none.
fn run(worker: &mut ThreadState<Filter>, os: &mut Os, first: Outcome) -> (Vec<EventResult>, Next) {
    let mut events = vec![];
    let mut outcome = first;
    loop {
        events.extend(outcome.events);
        match outcome.next {
            Next::Call(request) => {
                let response = os.perform(&request);
                outcome = worker.resume(response);
            }
            other => return (events, other),
        }
    }
}

fn instruct(
    worker: &mut ThreadState<Filter>,
    os: &mut Os,
    ins: Instruction,
) -> (Vec<EventResult>, Next) {
    let first = worker.handle_instruction(ins);
    run(worker, os, first)
}

fn watch(worker: &mut ThreadState<Filter>, os: &mut Os, path: &str) -> (Vec<EventResult>, Next) {
    instruct(worker, os, Instruction::Watch(path.to_string()))
}

fn unwatch(worker: &mut ThreadState<Filter>, os: &mut Os, path: &str) -> (Vec<EventResult>, Next) {
    instruct(worker, os, Instruction::Unwatch(path.to_string()))
}

fn config(limit: Option<usize>, filter: Option<Filter>) -> Configuration<Filter> {
    Configuration {
        subscribe: Operations::all(),
        follow_symlinks: true,
        recursion_limit: limit,
        recursion_filter: filter,
    }
}

fn worker(limit: Option<usize>, filter: Option<Filter>) -> ThreadState<Filter> {
    ThreadState::new(config(limit, filter), PORT)
}

fn key(volume: u32, index: u64) -> INode {
    INode { handle: HANDLE(0), volume, index }
}

/// root -> a -> b, and root -> skip -> deep
fn tree() -> Vec<Dir> {
    vec![
        Dir { path: "/root", volume: 1, index: 1, children: vec!["/root/a", "/root/skip"] },
        Dir { path: "/root/a", volume: 1, index: 2, children: vec!["/root/a/b"] },
        Dir { path: "/root/a/b", volume: 1, index: 3, children: vec![] },
        Dir { path: "/root/skip", volume: 1, index: 4, children: vec!["/root/skip/deep"] },
        Dir { path: "/root/skip/deep", volume: 1, index: 5, children: vec![] },
        Dir { path: "/link-to-a", volume: 1, index: 2, children: vec!["/link-to-a/b"] },
        Dir { path: "/tmp/x", volume: 2, index: 10, children: vec![] },
        Dir { path: "/tmp/y", volume: 2, index: 11, children: vec![] },
    ]
}

fn not_skip(path: &str) -> bool {
    !path.ends_with("/skip")
}

fn completion(
    volume: u32,
    index: u64,
    status: Result<(), Error>,
    changes: Vec<(&str, u32)>,
) -> Completion {
    Completion {
        volume,
        index,
        status,
        transferred: if changes.is_empty() { 0 } else { 64 },
        changes: changes
            .into_iter()
            .map(|(relative, bits)| Change {
                relative: relative.to_string(),
                operation: Operations::from_bits_truncate(bits),
            })
            .collect(),
    }
}

#[test]
fn a_new_worker_is_idle_and_watches_nothing() {
    let w = worker(Some(0), None);
    assert!(w.is_idle());
    assert!(!w.is_stopped());
    assert_eq!(w.watch_entry(&key(1, 1)), None);
}

#[test]
fn watch_steps_through_open_bind_read() {
    let mut w = worker(Some(0), None);
    let out = w.add_watch("/tmp/x".to_string());
    assert_eq!(out.events, vec![]);
    assert_eq!(
        out.next,
        Next::Call(Request::Open { path: "/tmp/x".to_string(), follow_symlinks: true })
    );
    assert!(!w.is_idle());
    let inode = INode { handle: HANDLE(5), volume: 2, index: 10 };
    let out = w.resume(Response::Opened(Ok(inode)));
    assert_eq!(out.next, Next::Call(Request::Bind { handle: HANDLE(5), port: PORT }));
    assert_eq!(w.watch_entry(&inode), None);
    let out = w.resume(Response::Done(Ok(())));
    assert_eq!(
        out.next,
        Next::Call(Request::Read {
            handle: HANDLE(5),
            volume: 2,
            index: 10,
            subscribe: Operations::all()
        })
    );
    assert_eq!(w.watch_entry(&inode).map(|e| e.path.as_str()), Some("/tmp/x"));
    let out = w.resume(Response::Done(Ok(())));
    assert_eq!(out.next, Next::Reply(Ok(())));
    assert_eq!(out.events, vec![]);
    assert!(w.is_idle());
}

#[test]
fn watch_event_close_scenario() {
    let mut os = Os::new(tree());
    let mut w: ThreadState<Filter> = ThreadState::new(Configuration::default(), PORT);
    let (events, next) = watch(&mut w, &mut os, "/tmp/x");
    assert_eq!(events, vec![]);
    assert_eq!(next, Next::Reply(Ok(())));

    let first = w.handle_completion(completion(2, 10, Ok(()), vec![("newfile", CREATE)]));
    let (events, next) = run(&mut w, &mut os, first);
    assert_eq!(
        events,
        vec![Ok(Event {
            path: Some("/tmp/x/newfile".to_string()),
            operation: Operations::from_bits_truncate(CREATE),
        })]
    );
    assert_eq!(next, Next::Wait);
    assert!(w.is_idle());

    let (events, next) = instruct(&mut w, &mut os, Instruction::Close);
    assert_eq!(events, vec![]);
    assert_eq!(next, Next::Exit(Ok(())));
    assert!(w.is_stopped());
    assert_eq!(os.open, Vec::<isize>::new());
    assert_eq!(w.watch_entry(&key(2, 10)), None);
}

#[test]
fn unwatch_of_a_path_never_watched_fails_with_not_watched() {
    let mut os = Os::new(tree());
    let mut w = worker(Some(0), None);
    let (events, next) = unwatch(&mut w, &mut os, "/tmp/y");
    assert_eq!(events, vec![]);
    assert_eq!(next, Next::Reply(Err(Error::NotWatched)));
    assert!(w.is_idle());
    assert_eq!(os.watched_handles(), Vec::<isize>::new());
}

#[test]
fn unwatch_of_another_path_leaves_the_watch() {
    let mut os = Os::new(tree());
    let mut w = worker(Some(0), None);
    assert_eq!(watch(&mut w, &mut os, "/tmp/x").1, Next::Reply(Ok(())));
    assert_eq!(unwatch(&mut w, &mut os, "/tmp/y").1, Next::Reply(Err(Error::NotWatched)));
    assert!(w.watch_entry(&key(2, 10)).is_some());
    assert_eq!(os.watched_handles().len(), 1);
}

#[test]
fn unwatch_of_a_path_that_cannot_be_opened_reports_the_failure() {
    let mut os = Os::new(tree());
    let mut w = worker(Some(0), None);
    assert_eq!(unwatch(&mut w, &mut os, "/nowhere").1, Next::Reply(Err(Error::Io(2))));
    assert!(w.is_idle());
}

#[test]
fn watch_then_unwatch_leaves_no_entry() {
    let mut os = Os::new(tree());
    let mut w = worker(Some(0), None);
    assert_eq!(watch(&mut w, &mut os, "/tmp/x").1, Next::Reply(Ok(())));
    assert!(w.watch_entry(&key(2, 10)).is_some());
    os.calls.clear();
    assert_eq!(unwatch(&mut w, &mut os, "/tmp/x").1, Next::Reply(Ok(())));
    assert_eq!(w.watch_entry(&key(2, 10)), None);
    assert_eq!(os.watched_handles(), Vec::<isize>::new());
    assert_eq!(
        os.calls,
        vec![
            Request::Open { path: "/tmp/x".to_string(), follow_symlinks: true },
            Request::Close { handle: HANDLE(2) },
            Request::Cancel { handle: HANDLE(1) },
            Request::Close { handle: HANDLE(1) },
        ]
    );
    assert_eq!(unwatch(&mut w, &mut os, "/tmp/x").1, Next::Reply(Err(Error::NotWatched)));
}

#[test]
fn two_paths_to_one_directory_make_one_watch() {
    let mut os = Os::new(tree());
    let mut w = worker(Some(0), None);
    assert_eq!(watch(&mut w, &mut os, "/root/a").1, Next::Reply(Ok(())));
    assert_eq!(watch(&mut w, &mut os, "/link-to-a").1, Next::Reply(Ok(())));
    let entry = w.watch_entry(&key(1, 2)).unwrap();
    assert_eq!(entry.path, "/root/a");
    assert_eq!(entry.inode.handle, HANDLE(1));
    assert_eq!(os.watched_handles(), vec![1]);
    assert_eq!(os.calls.last(), Some(&Request::Close { handle: HANDLE(2) }));
    assert_eq!(unwatch(&mut w, &mut os, "/link-to-a").1, Next::Reply(Ok(())));
    assert_eq!(w.watch_entry(&key(1, 2)), None);
    assert_eq!(os.watched_handles(), Vec::<isize>::new());
}

#[test]
fn watching_the_same_path_twice_makes_one_watch() {
    let mut os = Os::new(tree());
    let mut w = worker(Some(0), None);
    assert_eq!(watch(&mut w, &mut os, "/tmp/x").1, Next::Reply(Ok(())));
    assert_eq!(watch(&mut w, &mut os, "/tmp/x").1, Next::Reply(Ok(())));
    assert_eq!(os.watched_handles(), vec![1]);
}

#[test]
fn limit_zero_watches_only_the_root() {
    let mut os = Os::new(tree());
    let mut w = worker(Some(0), None);
    assert_eq!(watch(&mut w, &mut os, "/root").1, Next::Reply(Ok(())));
    assert_eq!(os.opened_paths(), vec!["/root"]);
    assert_eq!(os.listed_paths(), Vec::<String>::new());
    assert!(w.watch_entry(&key(1, 1)).is_some());
    assert_eq!(w.watch_entry(&key(1, 2)), None);
    assert_eq!(os.watched_handles().len(), 1);
}

#[test]
fn limit_one_watches_root_and_children_only() {
    let mut os = Os::new(vec![
        Dir { path: "/root", volume: 1, index: 1, children: vec!["/root/a"] },
        Dir { path: "/root/a", volume: 1, index: 2, children: vec!["/root/a/b"] },
        Dir { path: "/root/a/b", volume: 1, index: 3, children: vec![] },
    ]);
    let mut w = worker(Some(1), None);
    assert_eq!(watch(&mut w, &mut os, "/root").1, Next::Reply(Ok(())));
    assert_eq!(os.opened_paths(), vec!["/root", "/root/a"]);
    assert_eq!(os.listed_paths(), vec!["/root"]);
    assert!(w.watch_entry(&key(1, 1)).is_some());
    assert!(w.watch_entry(&key(1, 2)).is_some());
    assert_eq!(w.watch_entry(&key(1, 3)), None);
    assert_eq!(os.watched_handles().len(), 2);
}

#[test]
fn no_limit_watches_the_whole_tree() {
    let mut os = Os::new(tree());
    let mut w = worker(None, None);
    assert_eq!(watch(&mut w, &mut os, "/root").1, Next::Reply(Ok(())));
    let mut opened = os.opened_paths();
    opened.sort();
    assert_eq!(opened, vec!["/root", "/root/a", "/root/a/b", "/root/skip", "/root/skip/deep"]);
    for index in 1..=5 {
        assert!(w.watch_entry(&key(1, index)).is_some());
    }
    assert_eq!(os.watched_handles().len(), 5);
}

#[test]
fn the_walk_is_depth_first() {
    let mut os = Os::new(tree());
    let mut w = worker(None, None);
    assert_eq!(watch(&mut w, &mut os, "/root").1, Next::Reply(Ok(())));
    assert_eq!(
        os.opened_paths(),
        vec!["/root", "/root/skip", "/root/skip/deep", "/root/a", "/root/a/b"]
    );
}

#[test]
fn a_refused_directory_is_not_descended_into() {
    let mut os = Os::new(tree());
    let mut w = worker(None, Some(not_skip));
    assert_eq!(watch(&mut w, &mut os, "/root").1, Next::Reply(Ok(())));
    assert_eq!(os.opened_paths(), vec!["/root", "/root/a", "/root/a/b"]);
    assert_eq!(w.watch_entry(&key(1, 4)), None);
    assert_eq!(w.watch_entry(&key(1, 5)), None);
    assert!(w.watch_entry(&key(1, 3)).is_some());
    assert!(!os.listed_paths().contains(&"/root/skip".to_string()));
}

#[test]
fn the_filter_is_not_asked_about_the_root() {
    let mut os = Os::new(tree());
    let mut w = worker(None, Some(not_skip));
    assert_eq!(watch(&mut w, &mut os, "/root/skip").1, Next::Reply(Ok(())));
    assert_eq!(os.opened_paths(), vec!["/root/skip", "/root/skip/deep"]);
}

#[test]
fn a_root_that_cannot_be_opened_fails_the_watch() {
    let mut os = Os::new(tree());
    let mut w = worker(None, None);
    let (events, next) = watch(&mut w, &mut os, "/nowhere");
    assert_eq!(events, vec![]);
    assert_eq!(next, Next::Reply(Err(Error::Io(2))));
    assert!(w.is_idle());
    assert_eq!(os.watched_handles(), Vec::<isize>::new());
}

#[test]
fn a_subdirectory_that_cannot_be_opened_is_reported_as_an_event() {
    let mut os = Os::new(vec![
        Dir { path: "/root", volume: 1, index: 1, children: vec!["/root/gone", "/root/a"] },
        Dir { path: "/root/a", volume: 1, index: 2, children: vec![] },
    ]);
    let mut w = worker(None, None);
    let (events, next) = watch(&mut w, &mut os, "/root");
    assert_eq!(events, vec![Err(Error::Io(2))]);
    assert_eq!(next, Next::Reply(Ok(())));
    assert!(w.watch_entry(&key(1, 1)).is_some());
    assert!(w.watch_entry(&key(1, 2)).is_some());
}

#[test]
fn a_failed_binding_closes_the_handle_and_fails_the_watch() {
    let mut os = Os::new(tree());
    os.fail_bind = Some(87);
    let mut w = worker(Some(0), None);
    let (events, next) = watch(&mut w, &mut os, "/tmp/x");
    assert_eq!(events, vec![]);
    assert_eq!(next, Next::Reply(Err(Error::Io(87))));
    assert_eq!(w.watch_entry(&key(2, 10)), None);
    assert_eq!(os.watched_handles(), Vec::<isize>::new());
    assert_eq!(os.calls.last(), Some(&Request::Close { handle: HANDLE(1) }));
}

#[test]
fn a_failed_binding_stands_even_if_the_close_fails_too() {
    let mut os = Os::new(tree());
    os.fail_bind = Some(87);
    os.fail_close = Some(6);
    let mut w = worker(Some(0), None);
    assert_eq!(watch(&mut w, &mut os, "/tmp/x").1, Next::Reply(Err(Error::Io(87))));
}

#[test]
fn a_refused_read_costs_the_watch() {
    let mut os = Os::new(tree());
    os.fail_read = Some(1450);
    let mut w = worker(Some(0), None);
    let (events, next) = watch(&mut w, &mut os, "/tmp/x");
    assert_eq!(events, vec![]);
    assert_eq!(next, Next::Reply(Err(Error::Io(1450))));
    assert_eq!(w.watch_entry(&key(2, 10)), None);
    assert_eq!(os.watched_handles(), Vec::<isize>::new());
}

#[test]
fn a_read_refused_for_access_is_no_failure() {
    let mut os = Os::new(tree());
    os.fail_read = Some(ERROR_ACCESS_DENIED);
    let mut w = worker(None, None);
    let (events, next) = watch(&mut w, &mut os, "/root");
    assert_eq!(events, vec![]);
    assert_eq!(next, Next::Reply(Ok(())));
    assert_eq!(w.watch_entry(&key(1, 1)), None);
    assert_eq!(os.watched_handles(), Vec::<isize>::new());
    assert_eq!(os.listed_paths(), Vec::<String>::new());
}

#[test]
fn a_failed_listing_is_reported_as_an_event() {
    let mut os = Os::new(tree());
    os.fail_list = Some(5);
    let mut w = worker(None, None);
    let (events, next) = watch(&mut w, &mut os, "/root");
    assert_eq!(events, vec![Err(Error::Io(5))]);
    assert_eq!(next, Next::Reply(Ok(())));
    assert!(w.watch_entry(&key(1, 1)).is_some());
    assert_eq!(os.opened_paths(), vec!["/root"]);
}

#[test]
fn a_failed_close_of_a_duplicate_fails_the_watch() {
    let mut os = Os::new(tree());
    let mut w = worker(Some(0), None);
    assert_eq!(watch(&mut w, &mut os, "/tmp/x").1, Next::Reply(Ok(())));
    os.fail_close = Some(6);
    assert_eq!(watch(&mut w, &mut os, "/tmp/x").1, Next::Reply(Err(Error::Io(6))));
    assert!(w.watch_entry(&key(2, 10)).is_some());
}

#[test]
fn changes_become_events_in_order() {
    let mut os = Os::new(tree());
    let mut w = worker(Some(0), None);
    watch(&mut w, &mut os, "/tmp/x");
    os.calls.clear();
    let first = w.handle_completion(completion(
        2,
        10,
        Ok(()),
        vec![("one", CREATE), ("two", MODIFY), ("one", DELETE)],
    ));
    let (events, next) = run(&mut w, &mut os, first);
    let paths: Vec<Option<String>> =
        events.iter().map(|e| e.as_ref().unwrap().path.clone()).collect();
    let kinds: Vec<u32> = events.iter().map(|e| e.as_ref().unwrap().operation.bits()).collect();
    assert_eq!(
        paths,
        vec![
            Some("/tmp/x/one".to_string()),
            Some("/tmp/x/two".to_string()),
            Some("/tmp/x/one".to_string())
        ]
    );
    assert_eq!(kinds, vec![CREATE, MODIFY, DELETE]);
    assert_eq!(next, Next::Wait);
    assert_eq!(
        os.calls,
        vec![Request::Read {
            handle: HANDLE(1),
            volume: 2,
            index: 10,
            subscribe: Operations::all()
        }]
    );
}

#[test]
fn changes_that_are_not_subscribed_to_are_dropped() {
    let mut os = Os::new(tree());
    let mut w: ThreadState<Filter> = ThreadState::new(
        Configuration {
            subscribe: Operations::from_bits_truncate(CREATE | DELETE),
            follow_symlinks: false,
            recursion_limit: Some(0),
            recursion_filter: None,
        },
        PORT,
    );
    assert_eq!(
        w.add_watch("/tmp/x".to_string()).next,
        Next::Call(Request::Open { path: "/tmp/x".to_string(), follow_symlinks: false })
    );
    let mut os_first =
        os.perform(&Request::Open { path: "/tmp/x".to_string(), follow_symlinks: false });
    loop {
        let out = w.resume(os_first);
        match out.next {
            Next::Call(request) => os_first = os.perform(&request),
            _ => break,
        }
    }
    let first = w.handle_completion(completion(
        2,
        10,
        Ok(()),
        vec![("a", MODIFY), ("b", CREATE), ("c", MODIFY | DELETE)],
    ));
    let (events, _) = run(&mut w, &mut os, first);
    assert_eq!(
        events,
        vec![
            Ok(Event {
                path: Some("/tmp/x/b".to_string()),
                operation: Operations::from_bits_truncate(CREATE)
            }),
            Ok(Event {
                path: Some("/tmp/x/c".to_string()),
                operation: Operations::from_bits_truncate(MODIFY | DELETE)
            }),
        ]
    );
}

#[test]
fn more_data_is_processed_and_the_read_resubmitted() {
    let mut os = Os::new(tree());
    let mut w = worker(Some(0), None);
    watch(&mut w, &mut os, "/tmp/x");
    os.calls.clear();
    let first = w.handle_completion(completion(
        2,
        10,
        Err(Error::Io(ERROR_MORE_DATA)),
        vec![("f", CREATE)],
    ));
    let (events, next) = run(&mut w, &mut os, first);
    assert_eq!(events.len(), 1);
    assert_eq!(events[0].as_ref().unwrap().path, Some("/tmp/x/f".to_string()));
    assert_eq!(next, Next::Wait);
    assert_eq!(os.calls.len(), 1);
    assert!(matches!(os.calls[0], Request::Read { handle: HANDLE(1), .. }));
    assert!(w.watch_entry(&key(2, 10)).is_some());
}

#[test]
fn nothing_transferred_is_reported_as_overflow() {
    let mut os = Os::new(tree());
    let mut w = worker(Some(0), None);
    watch(&mut w, &mut os, "/tmp/x");
    os.calls.clear();
    let first = w.handle_completion(completion(2, 10, Ok(()), vec![]));
    let (events, next) = run(&mut w, &mut os, first);
    assert_eq!(events, vec![Err(Error::Overflow)]);
    assert_eq!(next, Next::Wait);
    assert!(matches!(os.calls[0], Request::Read { .. }));
    assert!(w.watch_entry(&key(2, 10)).is_some());
}

#[test]
fn an_aborted_read_is_passed_over() {
    let mut os = Os::new(tree());
    let mut w = worker(Some(0), None);
    watch(&mut w, &mut os, "/tmp/x");
    os.calls.clear();
    let out = w.handle_completion(completion(
        2,
        10,
        Err(Error::Io(ERROR_OPERATION_ABORTED)),
        vec![],
    ));
    assert_eq!(out.events, vec![]);
    assert_eq!(out.next, Next::Wait);
    assert!(w.is_idle());
    assert!(w.watch_entry(&key(2, 10)).is_some());
}

#[test]
fn access_denied_tears_the_watch_down_and_reports_the_deletion() {
    let mut os = Os::new(tree());
    let mut w = worker(Some(0), None);
    watch(&mut w, &mut os, "/tmp/x");
    watch(&mut w, &mut os, "/tmp/y");
    os.calls.clear();
    let first = w.handle_completion(completion(
        2,
        10,
        Err(Error::Io(ERROR_ACCESS_DENIED)),
        vec![],
    ));
    let (events, next) = run(&mut w, &mut os, first);
    assert_eq!(
        events,
        vec![Ok(Event {
            path: Some("/tmp/x".to_string()),
            operation: Operations::from_bits_truncate(DELETE),
        })]
    );
    assert_eq!(next, Next::Wait);
    assert_eq!(
        os.calls,
        vec![Request::Cancel { handle: HANDLE(1) }, Request::Close { handle: HANDLE(1) }]
    );
    assert_eq!(w.watch_entry(&key(2, 10)), None);
    assert!(w.watch_entry(&key(2, 11)).is_some());
    assert!(w.is_idle());
}

#[test]
fn access_denied_is_silent_if_deletions_are_not_subscribed_to() {
    let mut os = Os::new(tree());
    let mut w: ThreadState<Filter> = ThreadState::new(
        Configuration {
            subscribe: Operations::from_bits_truncate(CREATE),
            follow_symlinks: true,
            recursion_limit: Some(0),
            recursion_filter: None,
        },
        PORT,
    );
    watch(&mut w, &mut os, "/tmp/x");
    let first = w.handle_completion(completion(
        2,
        10,
        Err(Error::Io(ERROR_ACCESS_DENIED)),
        vec![],
    ));
    let (events, next) = run(&mut w, &mut os, first);
    assert_eq!(events, vec![]);
    assert_eq!(next, Next::Wait);
    assert_eq!(w.watch_entry(&key(2, 10)), None);
}

#[test]
fn any_other_failure_is_forwarded_and_tears_the_watch_down() {
    let mut os = Os::new(tree());
    let mut w = worker(Some(0), None);
    watch(&mut w, &mut os, "/tmp/x");
    watch(&mut w, &mut os, "/tmp/y");
    let first = w.handle_completion(completion(2, 11, Err(Error::Io(59)), vec![("f", CREATE)]));
    let (events, next) = run(&mut w, &mut os, first);
    assert_eq!(events, vec![Err(Error::Io(59))]);
    assert_eq!(next, Next::Wait);
    assert_eq!(w.watch_entry(&key(2, 11)), None);
    assert!(w.watch_entry(&key(2, 10)).is_some());
    assert_eq!(os.watched_handles(), vec![1]);
}

#[test]
fn a_completion_for_an_unknown_directory_is_passed_over() {
    let mut w = worker(Some(0), None);
    let out = w.handle_completion(completion(9, 9, Ok(()), vec![("f", CREATE)]));
    assert_eq!(out.events, vec![]);
    assert_eq!(out.next, Next::Wait);
    assert!(w.is_idle());
}

#[test]
fn a_failed_resubmission_is_reported_and_costs_the_watch() {
    let mut os = Os::new(tree());
    let mut w = worker(Some(0), None);
    watch(&mut w, &mut os, "/tmp/x");
    os.fail_read = Some(31);
    let first = w.handle_completion(completion(2, 10, Ok(()), vec![("f", CREATE)]));
    let (events, next) = run(&mut w, &mut os, first);
    assert_eq!(events.len(), 2);
    assert!(events[0].is_ok());
    assert_eq!(events[1], Err(Error::Io(31)));
    assert_eq!(next, Next::Wait);
    assert_eq!(w.watch_entry(&key(2, 10)), None);
    assert!(w.is_idle());
}

#[test]
fn close_cancels_and_closes_every_watch_and_then_the_port() {
    let mut os = Os::new(tree());
    let mut w = worker(None, None);
    watch(&mut w, &mut os, "/root");
    watch(&mut w, &mut os, "/tmp/x");
    assert_eq!(os.watched_handles().len(), 6);
    os.calls.clear();
    let (events, next) = instruct(&mut w, &mut os, Instruction::Close);
    assert_eq!(events, vec![]);
    assert_eq!(next, Next::Exit(Ok(())));
    assert_eq!(os.calls.len(), 13);
    assert_eq!(os.calls.last(), Some(&Request::Close { handle: PORT }));
    for pair in os.calls[..12].chunks(2) {
        match (&pair[0], &pair[1]) {
            (Request::Cancel { handle: a }, Request::Close { handle: b }) => assert_eq!(a, b),
            other => panic!("unexpected calls {:?}", other),
        }
    }
    assert_eq!(os.open, Vec::<isize>::new());
    assert!(w.is_stopped());
}

#[test]
fn close_passes_over_failures_to_close_a_watch() {
    let mut os = Os::new(tree());
    let mut w = worker(Some(0), None);
    watch(&mut w, &mut os, "/tmp/x");
    let out = w.handle_instruction(Instruction::Close);
    assert_eq!(out.next, Next::Call(Request::Cancel { handle: HANDLE(1) }));
    let out = w.resume(Response::Done(Err(Error::Io(6))));
    assert_eq!(out.next, Next::Call(Request::Close { handle: HANDLE(1) }));
    let out = w.resume(Response::Done(Err(Error::Io(6))));
    assert_eq!(out.next, Next::Call(Request::Close { handle: PORT }));
    let out = w.resume(Response::Done(Ok(())));
    assert_eq!(out.next, Next::Exit(Ok(())));
    assert_eq!(out.events, vec![]);
}

#[test]
fn close_reports_a_failure_to_close_the_port() {
    let mut w = worker(Some(0), None);
    let out = w.close();
    assert_eq!(out.next, Next::Call(Request::Close { handle: PORT }));
    let out = w.resume(Response::Done(Err(Error::Io(6))));
    assert_eq!(out.next, Next::Exit(Err(Error::Io(6))));
    assert!(w.is_stopped());
}

#[test]
fn a_stopped_worker_answers_closed() {
    let mut os = Os::new(tree());
    let mut w = worker(Some(0), None);
    assert_eq!(instruct(&mut w, &mut os, Instruction::Close).1, Next::Exit(Ok(())));
    os.calls.clear();
    assert_eq!(watch(&mut w, &mut os, "/tmp/x").1, Next::Reply(Err(Error::Closed)));
    assert_eq!(unwatch(&mut w, &mut os, "/tmp/x").1, Next::Reply(Err(Error::Closed)));
    assert_eq!(instruct(&mut w, &mut os, Instruction::Close).1, Next::Reply(Err(Error::Closed)));
    assert_eq!(os.calls, vec![]);
    assert!(w.is_stopped());
    let out = w.handle_completion(completion(2, 10, Ok(()), vec![("f", CREATE)]));
    assert_eq!(out.next, Next::Wait);
    assert_eq!(out.events, vec![]);
}

#[test]
fn a_busy_worker_refuses_instructions() {
    let mut w = worker(Some(0), None);
    let out = w.handle_instruction(Instruction::Watch("/tmp/x".to_string()));
    assert!(matches!(out.next, Next::Call(Request::Open { .. })));
    let out = w.handle_instruction(Instruction::Watch("/tmp/y".to_string()));
    assert_eq!(out.next, Next::Reply(Err(Error::Sending)));
    let out = w.resume(Response::Opened(Ok(INode { handle: HANDLE(3), volume: 2, index: 10 })));
    assert_eq!(out.next, Next::Call(Request::Bind { handle: HANDLE(3), port: PORT }));
}

#[test]
fn an_answer_that_is_not_waited_for_changes_nothing() {
    let mut w = worker(Some(0), None);
    let out = w.resume(Response::Done(Ok(())));
    assert_eq!(out.next, Next::Wait);
    assert_eq!(out.events, vec![]);
    assert!(w.is_idle());
    w.add_watch("/tmp/x".to_string());
    let out = w.resume(Response::Listed(Ok(vec!["/tmp/x/a".to_string()])));
    assert_eq!(out.next, Next::Wait);
    let out = w.resume(Response::Opened(Ok(INode { handle: HANDLE(3), volume: 2, index: 10 })));
    assert_eq!(out.next, Next::Call(Request::Bind { handle: HANDLE(3), port: PORT }));
}

#[test]
fn start_read_goes_on_after_an_accepted_read() {
    let mut w = worker(Some(0), None);
    let inode = INode { handle: HANDLE(3), volume: 2, index: 10 };
    let out = w.start_read(inode, After::Wait, Ok(()));
    assert_eq!(out.next, Next::Wait);
    assert_eq!(out.events, vec![]);
    assert!(w.is_idle());
    let out = w.start_read(inode, After::Reply, Err(Error::Io(31)));
    assert_eq!(out.next, Next::Call(Request::Close { handle: HANDLE(3) }));
    let out = w.resume(Response::Done(Ok(())));
    assert_eq!(out.next, Next::Reply(Err(Error::Io(31))));
}

#[test]
fn delete_watch_drops_the_entry() {
    let mut os = Os::new(tree());
    let mut w = worker(Some(0), None);
    watch(&mut w, &mut os, "/tmp/x");
    w.delete_watch(&key(2, 11));
    assert!(w.watch_entry(&key(2, 10)).is_some());
    w.delete_watch(&key(2, 10));
    assert_eq!(w.watch_entry(&key(2, 10)), None);
}

#[test]
fn event_and_event_error_append() {
    let w = worker(Some(0), None);
    let created = Event::new(Some("/f".to_string()), Operations::from_bits_truncate(CREATE));
    let events = w.event(vec![], Ok(created.clone()));
    let events = w.event_error(events, Error::Overflow);
    assert_eq!(events, vec![Ok(created), Err(Error::Overflow)]);
}

#[test]
fn a_path_with_a_zero_character_is_invalid() {
    let mut os = Os::new(tree());
    let mut w = worker(Some(0), None);
    assert_eq!(watch(&mut w, &mut os, "/tmp/x\0y").1, Next::Reply(Err(Error::PathInvalid)));
    assert_eq!(unwatch(&mut w, &mut os, "\0").1, Next::Reply(Err(Error::PathInvalid)));
    assert_eq!(os.calls, vec![]);
    assert!(w.is_idle());
    assert_eq!(watch(&mut w, &mut os, "/tmp/x").1, Next::Reply(Ok(())));
}
