//! Streaming events.

use vstd::prelude::*;

use crate::entities::notification::Notification;
use crate::entities::status::Status;

verus! {

/// Spec-level picture of an event: each payload as its text.
pub enum EventV {
    Update(Seq<char>),
    Notification(Seq<char>),
    Delete(Seq<char>),
    FiltersChanged,
}

/// One event decoded from the streaming API.
#[derive(Clone, Debug, PartialEq)]
pub enum Event {
    /// A new status appeared.
    Update(Status),
    /// A new notification arrived.
    Notification(Notification),
    /// A status was deleted; holds its id.
    Delete(String),
    /// The user's filters changed; carries nothing.
    FiltersChanged,
}

impl View for Event {
    type V = EventV;

    open spec fn view(&self) -> EventV {
        match self {
            Event::Update(s) => EventV::Update(s@),
            Event::Notification(n) => EventV::Notification(n@),
            Event::Delete(id) => EventV::Delete(id@),
            Event::FiltersChanged => EventV::FiltersChanged,
        }
    }
}

} // verus!
