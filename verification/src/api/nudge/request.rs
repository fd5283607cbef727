use vstd::prelude::*;

verus! {

/// A nudge left on a page.
pub struct PostNudgeParam {
    pub page_id: String,
    pub content: String,
}

} // verus!
