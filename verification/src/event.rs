//! What a caller reports back after it has done what an action named.

use crate::guest::CommandInstance;
use vstd::prelude::*;

verus! {

/// The outcome of the step that the last action asked for.
#[derive(Debug, PartialEq, Eq)]
pub enum Event {
    /// Nothing has been asked yet: the run starts.
    Begin,
    /// The engine did what was asked.
    Done,
    /// The engine refused, with its message.
    Rejected(String),
    /// Whether the probed host directory exists.
    Probed(bool),
    /// The engine instantiated the guest, in this form.
    Instantiated(CommandInstance),
    /// Whether the instance has the export that was looked for.
    Located(bool),
}

/// The mathematical form of an [`Event`].
pub enum EventView {
    Begin,
    Done,
    Rejected(Seq<char>),
    Probed(bool),
    Instantiated(CommandInstance),
    Located(bool),
}

impl View for Event {
    type V = EventView;

    open spec fn view(&self) -> EventView {
        match *self {
            Event::Begin => EventView::Begin,
            Event::Done => EventView::Done,
            Event::Rejected(message) => EventView::Rejected(message@),
            Event::Probed(exists) => EventView::Probed(exists),
            Event::Instantiated(instance) => EventView::Instantiated(instance),
            Event::Located(found) => EventView::Located(found),
        }
    }
}

impl EventView {
    /// Whether the event is the engine's answer to a request that it can only
    /// grant or refuse.
    pub open spec fn is_verdict(self) -> bool {
        self is Done || self is Rejected
    }
}

} // verus!
