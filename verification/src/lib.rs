//! A file system change notifier: the rules by which directory watches are
//! registered, kept and torn down, without any call into the operating system.
//!
//! A notifier has two halves. The half that callers hold ([`notifier`]) says
//! whether the notifier is open and which instruction a call sends. The half
//! that runs on the worker thread ([`worker`]) owns the watch registry
//! ([`registry`]) and decides, step by step, which call into the operating
//! system comes next; the thread that runs it makes the call and hands the
//! answer back ([`protocol`]). What the worker does is laid down as a state
//! machine over mathematical values ([`model`]), and what holds of every run
//! of that machine is proved in [`laws`].

pub mod config;
pub mod decode;
pub mod error;
pub mod event;
pub mod handle;
pub mod helpers;
pub mod laws;
pub mod model;
pub mod notifier;
pub mod operations;
pub mod protocol;
pub mod registry;
pub mod worker;

pub use crate::config::{Configuration, RecursionLimit};
pub use crate::error::{Error, EventResult, NotifyResult, R};
pub use crate::event::Event;
pub use crate::notifier::{new, EventSender, FsNotifier};
pub use crate::operations::Operations;
