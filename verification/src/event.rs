//! The change events that a notifier hands to its consumer.

use vstd::prelude::*;
use crate::error::{Error, EventResult};
use crate::operations::Operations;

verus! {

/// One observed change.
#[derive(Clone, PartialEq, Eq, Debug)]
pub struct Event {
    /// The absolute path the change occurred on; `None` for an event of the
    /// engine itself, which belongs to no path.
    pub path: Option<String>,
    /// What happened.
    pub operation: Operations,
}

/// The mathematical value of an `Event`: its path as a sequence of characters.
pub ghost struct EventView {
    pub path: Option<Seq<char>>,
    pub operation: Operations,
}

impl View for Event {
    type V = EventView;

    open spec fn view(&self) -> EventView {
        EventView {
            path: match self.path {
                Some(p) => Some(p@),
                None => None,
            },
            operation: self.operation,
        }
    }
}

impl Event {
    /// The event that reports `operation` on `path`.
    pub fn new(path: Option<String>, operation: Operations) -> (r: Event)
        ensures
            r.path == path,
            r.operation == operation,
    {
        Event { path, operation }
    }
}

/// The value of one item of the event stream.
pub open spec fn event_result_view(r: EventResult) -> Result<EventView, Error> {
    match r {
        Ok(e) => Ok(e@),
        Err(e) => Err(e),
    }
}

/// The value of a run of items of the event stream, in order.
pub open spec fn events_view(s: Seq<EventResult>) -> Seq<Result<EventView, Error>> {
    s.map_values(|r: EventResult| event_result_view(r))
}

} // verus!
