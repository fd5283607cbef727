use vstd::prelude::*;

verus! {

/// One event, as its stored contents.
pub struct EventResp {
    pub contents: String,
}

/// A listing of events.
pub struct GetEventsResp {
    pub events: Vec<EventResp>,
}

/// One event, if it exists.
pub struct GetEventResp {
    pub event: Option<EventResp>,
}

} // verus!
