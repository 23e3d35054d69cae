//! Events (weddings, proms, ...) that invoices can be linked to.
use vstd::prelude::*;

verus! {

/// An event to insert.
#[derive(Debug)]
pub struct EventInsert {
    pub name: String,
    pub event_type: String,
    pub date: String,
}

/// An event as submitted by the event form.
#[derive(Debug)]
pub struct EventForm {
    pub name: String,
    pub date: String,
    pub event_type: String,
}

impl From<EventForm> for EventInsert {
    fn from(value: EventForm) -> (r: Self) {
        EventInsert { name: value.name, event_type: value.event_type, date: value.date }
    }
}

impl vstd::std_specs::convert::FromSpecImpl<EventForm> for EventInsert {
    open spec fn obeys_from_spec() -> bool {
        true
    }

    open spec fn from_spec(value: EventForm) -> EventInsert {
        EventInsert { name: value.name, event_type: value.event_type, date: value.date }
    }
}

/// An event as shown to users.
#[derive(Clone)]
pub struct EventView {
    pub id: u64,
    pub name: String,
    pub event_type: String,
    pub date: String,
}

} // verus!
