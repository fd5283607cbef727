use vstd::prelude::*;

verus! {

/// The answer to a search, with the session it belongs to.
pub struct SearchResp {
    pub answer: String,
    pub session: String,
}

} // verus!
