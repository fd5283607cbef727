use vstd::prelude::*;

use crate::api::util::request::Pagination;

verus! {

/// The query of an event listing: a page of results.
pub struct GetEventsParam {
    pub pagination: Pagination,
}

} // verus!
