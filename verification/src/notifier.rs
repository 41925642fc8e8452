//! The notifier as its callers hold it: the interface that every platform
//! offers, the life cycle behind it, and the platforms' notifiers.

use vstd::prelude::*;
use std::sync::mpsc::Sender;
use crate::config::Configuration;
use crate::error::{Error, EventResult, NotifyResult, R};
use crate::handle::HANDLE;
use crate::helpers::path_buf;
use crate::protocol::Instruction;

verus! {

/// `std::sync::mpsc::Sender`, the sending half of a channel. Nothing is
/// claimed of it: a notifier only holds it.
#[verifier::external_type_specification]
#[verifier::external_body]
#[verifier::reject_recursive_types(T)]
pub struct ExSender<T>(Sender<T>);

/// The sending half of the event stream.
pub type EventSender = Sender<EventResult>;

/// The interface of a notifier.
///
/// A notifier is open until it is closed, and closed from then on. While it
/// is closed every operation fails with `Closed`.
///
/// `F` is the type of the recursion filter.
pub trait FsNotifier<F: Fn(&str) -> bool>: Sized {
    /// Whether the notifier has been closed. This is a notion of the
    /// contracts below; nothing calls it when the program runs.
    spec fn closed(&self) -> bool;

    /// Builds a notifier that sends its events through `sender` and follows
    /// `config`. A notifier is open when it is built.
    fn new(sender: EventSender, config: Configuration<F>) -> (r: NotifyResult<Self>)
        requires
            config.wf(),
        ensures
            r matches Ok(n) ==> !n.closed(),
    ;

    /// Starts to watch the directory at `path`.
    fn watch(&mut self, path: &str) -> (r: R)
        ensures
            final(self).closed() == old(self).closed(),
            old(self).closed() ==> r == Err::<(), Error>(Error::Closed),
    ;

    /// Stops watching the directory at `path`.
    fn unwatch(&mut self, path: &str) -> (r: R)
        ensures
            final(self).closed() == old(self).closed(),
            old(self).closed() ==> r == Err::<(), Error>(Error::Closed),
    ;

    /// Closes the notifier. A notifier that has been closed stays closed,
    /// and closing it again fails.
    fn close(&mut self) -> (r: R)
        ensures
            old(self).closed() ==> final(self).closed() && r == Err::<(), Error>(Error::Closed),
            r is Ok ==> final(self).closed(),
    ;

    /// Whether the notifier has been closed.
    fn is_closed(&self) -> (r: NotifyResult<bool>)
        ensures
            r == Ok::<bool, Error>(self.closed()),
    ;
}

/// Builds the notifier `N`, as its own `new` does from the same sender and configuration.
pub fn new<F: Fn(&str) -> bool, N: FsNotifier<F>>(
    sender: EventSender,
    config: Configuration<F>,
) -> (r: NotifyResult<N>)
    requires
        config.wf(),
    ensures
        call_ensures(N::new, (sender, config), r),
        r matches Ok(n) ==> !n.closed(),
{
    N::new(sender, config)
}

/// The notifier for Linux. It offers none of the operations yet.
pub struct LinuxFsNotifier<F: Fn(&str) -> bool> {
    config: Configuration<F>,
    sender: EventSender,
}

impl<F: Fn(&str) -> bool> FsNotifier<F> for LinuxFsNotifier<F> {
    open spec fn closed(&self) -> bool {
        false
    }

    fn new(sender: EventSender, config: Configuration<F>) -> (r: NotifyResult<Self>)
        ensures
            r matches Ok(n) && n.config() == config && n.sender() == sender,
    {
        Ok(LinuxFsNotifier { config, sender })
    }

    fn watch(&mut self, path: &str) -> (r: R)
        ensures
            r == Err::<(), Error>(Error::NotImplemented),
    {
        Err(Error::NotImplemented)
    }

    fn unwatch(&mut self, path: &str) -> (r: R)
        ensures
            r == Err::<(), Error>(Error::NotImplemented),
    {
        Err(Error::NotImplemented)
    }

    fn close(&mut self) -> (r: R)
        ensures
            r == Err::<(), Error>(Error::NotImplemented),
    {
        Err(Error::NotImplemented)
    }

    fn is_closed(&self) -> (r: NotifyResult<bool>) {
        Ok(false)
    }
}

/// The notifier for macOS. It offers none of the operations yet.
pub struct OsxFsNotifier<F: Fn(&str) -> bool> {
    config: Configuration<F>,
    sender: EventSender,
}

impl<F: Fn(&str) -> bool> FsNotifier<F> for OsxFsNotifier<F> {
    open spec fn closed(&self) -> bool {
        false
    }

    fn new(sender: EventSender, config: Configuration<F>) -> (r: NotifyResult<Self>)
        ensures
            r matches Ok(n) && n.config() == config && n.sender() == sender,
    {
        Ok(OsxFsNotifier { config, sender })
    }

    fn watch(&mut self, path: &str) -> (r: R)
        ensures
            r == Err::<(), Error>(Error::NotImplemented),
    {
        Err(Error::NotImplemented)
    }

    fn unwatch(&mut self, path: &str) -> (r: R)
        ensures
            r == Err::<(), Error>(Error::NotImplemented),
    {
        Err(Error::NotImplemented)
    }

    fn close(&mut self) -> (r: R)
        ensures
            r == Err::<(), Error>(Error::NotImplemented),
    {
        Err(Error::NotImplemented)
    }

    fn is_closed(&self) -> (r: NotifyResult<bool>) {
        Ok(false)
    }
}

impl<F: Fn(&str) -> bool> LinuxFsNotifier<F> {
    /// The configuration that the notifier was built with.
    pub closed spec fn config(&self) -> Configuration<F> {
        self.config
    }

    /// The sender through which the notifier was built to send its events.
    pub closed spec fn sender(&self) -> EventSender {
        self.sender
    }
}

impl<F: Fn(&str) -> bool> OsxFsNotifier<F> {
    /// The configuration that the notifier was built with.
    pub closed spec fn config(&self) -> Configuration<F> {
        self.config
    }

    /// The sender through which the notifier was built to send its events.
    pub closed spec fn sender(&self) -> EventSender {
        self.sender
    }
}

/// Where a notifier stands in its life.
#[derive(Clone, Copy, PartialEq, Eq, Debug, Structural)]
pub enum Lifecycle {
    /// Instructions are accepted.
    Open,
    /// `close` has been called and the worker is shutting down.
    Closing,
    /// The worker has been joined.
    Closed,
}

/// What calling `close` makes of a notifier in the state `state`: an open
/// one starts to close, and any other stays as it is and refuses.
pub open spec fn spec_close(state: Lifecycle) -> (Lifecycle, R) {
    match state {
        Lifecycle::Open => (Lifecycle::Closing, Ok(())),
        _ => (state, Err(Error::Closed)),
    }
}

/// What the end of the worker thread makes of a notifier in the state
/// `state`: one that is closing is closed, with failure if the worker
/// panicked; any other stays as it is and refuses.
pub open spec fn spec_joined(state: Lifecycle, panicked: bool) -> (Lifecycle, R) {
    match state {
        Lifecycle::Closing => (
            Lifecycle::Closed,
            if panicked {
                Err(Error::ThreadPanic)
            } else {
                Ok(())
            },
        ),
        _ => (state, Err(Error::Closed)),
    }
}

/// The result of checking that a notifier in the state `state` is open.
pub open spec fn spec_enforce_open(state: Lifecycle) -> R {
    match state {
        Lifecycle::Open => Ok(()),
        _ => Err(Error::Closed),
    }
}

/// The notifier for Windows, as far as it decides: the guard in front of the
/// worker. It says which instruction a call sends to the worker, or refuses
/// the call; sending the instruction and waiting for the reply is left to
/// the thread that holds the channel.
pub struct WinFsNotifier {
    state: Lifecycle,
    port: HANDLE,
}

impl WinFsNotifier {
    /// Where the notifier stands in its life.
    pub closed spec fn state(&self) -> Lifecycle {
        self.state
    }

    /// The completion port over which the worker is woken.
    pub closed spec fn spec_port(&self) -> HANDLE {
        self.port
    }

    /// Builds the notifier from the outcome of acquiring its completion
    /// port: open if the port was acquired, and the same failure otherwise.
    pub fn new(port: NotifyResult<HANDLE>) -> (r: NotifyResult<WinFsNotifier>)
        ensures
            match port {
                Ok(p) => r matches Ok(n) && n.state() == Lifecycle::Open && n.spec_port() == p,
                Err(e) => r matches Err(f) && f == e,
            },
    {
        match port {
            Ok(p) => Ok(WinFsNotifier { state: Lifecycle::Open, port: p }),
            Err(e) => Err(e),
        }
    }

    /// The completion port over which the worker is woken.
    pub fn port(&self) -> (p: HANDLE)
        ensures
            p == self.spec_port(),
    {
        self.port
    }

    /// Succeeds only if the notifier is open.
    pub fn enforce_open(&self) -> (r: R)
        ensures
            r == spec_enforce_open(self.state()),
    {
        match self.state {
            Lifecycle::Open => Ok(()),
            _ => Err(Error::Closed),
        }
    }

    /// The instruction by which the directory at `path` comes to be watched.
    /// Fails with `Closed` unless the notifier is open.
    pub fn watch(&self, path: &str) -> (r: NotifyResult<Instruction>)
        ensures
            match r {
                Ok(instruction) => {
                    &&& self.state() == Lifecycle::Open
                    &&& instruction matches Instruction::Watch(p)
                    &&& p@ == path@
                },
                Err(e) => self.state() != Lifecycle::Open && e == Error::Closed,
            },
    {
        match self.enforce_open() {
            Err(e) => Err(e),
            Ok(_) => Ok(Instruction::Watch(path_buf(path))),
        }
    }

    /// The instruction by which the directory at `path` ceases to be
    /// watched. Fails with `Closed` unless the notifier is open.
    pub fn unwatch(&self, path: &str) -> (r: NotifyResult<Instruction>)
        ensures
            match r {
                Ok(instruction) => {
                    &&& self.state() == Lifecycle::Open
                    &&& instruction matches Instruction::Unwatch(p)
                    &&& p@ == path@
                },
                Err(e) => self.state() != Lifecycle::Open && e == Error::Closed,
            },
    {
        match self.enforce_open() {
            Err(e) => Err(e),
            Ok(_) => Ok(Instruction::Unwatch(path_buf(path))),
        }
    }

    /// Starts to close the notifier and hands out the instruction that shuts
    /// the worker down. Fails with `Closed`, and changes nothing, unless the
    /// notifier is open.
    pub fn close(&mut self) -> (r: NotifyResult<Instruction>)
        ensures
            final(self).spec_port() == old(self).spec_port(),
            final(self).state() == spec_close(old(self).state()).0,
            match r {
                Ok(instruction) => spec_close(old(self).state()).1 is Ok && instruction
                    == Instruction::Close,
                Err(e) => spec_close(old(self).state()).1 == Err::<(), Error>(e),
            },
    {
        match self.enforce_open() {
            Err(e) => Err(e),
            Ok(_) => {
                self.state = Lifecycle::Closing;
                Ok(Instruction::Close)
            },
        }
    }

    /// Records that the worker thread has ended, after a `close` that went
    /// through: the notifier is closed for good. The result is that of the
    /// whole `close`: `ThreadPanic` if the worker `panicked`.
    pub fn joined(&mut self, panicked: bool) -> (r: R)
        ensures
            final(self).spec_port() == old(self).spec_port(),
            (final(self).state(), r) == spec_joined(old(self).state(), panicked),
    {
        match self.state {
            Lifecycle::Closing => {
                self.state = Lifecycle::Closed;
                if panicked {
                    Err(Error::ThreadPanic)
                } else {
                    Ok(())
                }
            },
            _ => Err(Error::Closed),
        }
    }

    /// Whether the notifier has been closed, or is closing.
    pub fn is_closed(&self) -> (r: NotifyResult<bool>)
        ensures
            r == Ok::<bool, Error>(self.state() != Lifecycle::Open),
    {
        match self.state {
            Lifecycle::Open => Ok(false),
            _ => Ok(true),
        }
    }
}

} // verus!
