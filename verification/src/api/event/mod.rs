use vstd::prelude::*;

pub mod request;
pub mod response;

use self::response::{EventResp, GetEventResp, GetEventsResp};

verus! {

/// The listing of events: one per row, with its contents, in order.
pub fn events_response(rows: Vec<String>) -> (r: GetEventsResp)
    ensures
        r.events@.len() == rows@.len(),
        forall|i: int| 0 <= i < rows@.len() ==> (#[trigger] r.events@[i]).contents@ == rows@[i]@,
{
    let mut events: Vec<EventResp> = Vec::new();
    let mut rows = rows;
    let ghost all = rows@;
    let n = rows.len();
    let mut taken: usize = 0;
    while taken < n
        invariant
            n == all.len(),
            taken <= n,
            rows@ == all.skip(taken as int),
            events@.len() == taken,
            forall|i: int| 0 <= i < taken ==> (#[trigger] events@[i]).contents@ == all[i]@,
        decreases n - taken,
    {
        let contents = rows.remove(0);
        assert(contents == all[taken as int]);
        assert(rows@ =~= all.skip(taken + 1));
        events.push(EventResp { contents });
        taken = taken + 1;
    }
    GetEventsResp { events }
}

/// The answer about one event: its contents, or nothing.
pub fn event_response(row: Option<String>) -> (r: GetEventResp)
    ensures
        match row {
            Some(c) => r.event matches Some(e) && e.contents@ == c@,
            None => r.event is None,
        },
{
    match row {
        Some(contents) => GetEventResp { event: Some(EventResp { contents }) },
        None => GetEventResp { event: None },
    }
}

} // verus!
