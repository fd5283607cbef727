use vstd::prelude::*;

verus! {

/// A page of results: at most `limit` items, on page number `page`.
#[derive(Clone, Copy, Debug, PartialEq, Eq)]
pub struct Pagination {
    pub limit: u64,
    pub page: u64,
}

} // verus!
