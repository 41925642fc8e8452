use fsnotify::config::Configuration;
use fsnotify::error::{Error, EventResult, NotifyResult};
use fsnotify::handle::HANDLE;
use fsnotify::notifier::{new, FsNotifier, LinuxFsNotifier, OsxFsNotifier, WinFsNotifier};
use fsnotify::protocol::Instruction;
use std::sync::mpsc::channel;

type Filter = fn(&str) -> bool;

fn open_notifier() -> WinFsNotifier {
    WinFsNotifier::new(Ok(HANDLE(77))).unwrap()
}

#[test]
fn new_fails_if_the_port_cannot_be_acquired() {
    assert!(matches!(WinFsNotifier::new(Err(Error::Io(8))), Err(Error::Io(8))));
}

#[test]
fn a_new_notifier_is_open() {
    let notifier = open_notifier();
    assert_eq!(notifier.port(), HANDLE(77));
    assert_eq!(notifier.is_closed(), Ok(false));
    assert_eq!(notifier.enforce_open(), Ok(()));
}

#[test]
fn an_open_notifier_hands_out_instructions() {
    let notifier = open_notifier();
    assert_eq!(notifier.watch("/tmp/x"), Ok(Instruction::Watch(String::from("/tmp/x"))));
    assert_eq!(notifier.unwatch("/tmp/y"), Ok(Instruction::Unwatch(String::from("/tmp/y"))));
    assert_eq!(notifier.is_closed(), Ok(false));
}

#[test]
fn close_then_everything_fails_with_closed() {
    let mut notifier = open_notifier();
    assert_eq!(notifier.close(), Ok(Instruction::Close));
    assert_eq!(notifier.is_closed(), Ok(true));
    assert_eq!(notifier.joined(false), Ok(()));
    assert_eq!(notifier.is_closed(), Ok(true));
    assert_eq!(notifier.watch("/tmp/x"), Err(Error::Closed));
    assert_eq!(notifier.unwatch("/tmp/x"), Err(Error::Closed));
    assert_eq!(notifier.close(), Err(Error::Closed));
    assert_eq!(notifier.enforce_open(), Err(Error::Closed));
}

#[test]
fn watch_after_close_fails_with_closed() {
    let mut notifier = open_notifier();
    assert!(notifier.close().is_ok());
    assert!(notifier.joined(false).is_ok());
    assert_eq!(notifier.watch("/tmp/x"), Err(Error::Closed));
}

#[test]
fn a_second_close_fails_with_closed() {
    let mut notifier = open_notifier();
    assert_eq!(notifier.close(), Ok(Instruction::Close));
    assert_eq!(notifier.close(), Err(Error::Closed));
    assert_eq!(notifier.joined(false), Ok(()));
    assert_eq!(notifier.close(), Err(Error::Closed));
    assert_eq!(notifier.is_closed(), Ok(true));
}

#[test]
fn a_closing_notifier_refuses_instructions() {
    let mut notifier = open_notifier();
    assert!(notifier.close().is_ok());
    assert_eq!(notifier.watch("/tmp/x"), Err(Error::Closed));
    assert_eq!(notifier.unwatch("/tmp/x"), Err(Error::Closed));
}

#[test]
fn a_panic_of_the_worker_is_reported() {
    let mut notifier = open_notifier();
    assert!(notifier.close().is_ok());
    assert_eq!(notifier.joined(true), Err(Error::ThreadPanic));
    assert_eq!(notifier.is_closed(), Ok(true));
    assert_eq!(notifier.close(), Err(Error::Closed));
}

#[test]
fn joined_without_close_is_refused() {
    let mut notifier = open_notifier();
    assert_eq!(notifier.joined(false), Err(Error::Closed));
    assert_eq!(notifier.is_closed(), Ok(false));
    assert!(notifier.watch("/tmp/x").is_ok());
}

#[test]
fn the_linux_notifier_is_not_implemented() {
    let (sender, _receiver) = channel::<EventResult>();
    let config: Configuration<Filter> = Configuration::default();
    let built: NotifyResult<LinuxFsNotifier<Filter>> = new(sender, config);
    let mut notifier = built.ok().unwrap();
    assert_eq!(notifier.watch("/tmp/x"), Err(Error::NotImplemented));
    assert_eq!(notifier.unwatch("/tmp/x"), Err(Error::NotImplemented));
    assert_eq!(notifier.close(), Err(Error::NotImplemented));
    assert_eq!(notifier.is_closed(), Ok(false));
}

#[test]
fn the_osx_notifier_is_not_implemented() {
    let (sender, _receiver) = channel::<EventResult>();
    let config: Configuration<Filter> = Configuration::default();
    let built: NotifyResult<OsxFsNotifier<Filter>> = OsxFsNotifier::new(sender, config);
    let mut notifier = built.ok().unwrap();
    assert_eq!(notifier.watch("/tmp/x"), Err(Error::NotImplemented));
    assert_eq!(notifier.unwatch("/tmp/x"), Err(Error::NotImplemented));
    assert_eq!(notifier.close(), Err(Error::NotImplemented));
    assert_eq!(notifier.is_closed(), Ok(false));
}
