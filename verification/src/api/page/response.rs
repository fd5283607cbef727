use vstd::prelude::*;

verus! {

/// One page, as its stored contents.
pub struct PageResp {
    pub contents: String,
}

/// A listing of pages.
pub struct GetPagesResp {
    pub pages: Vec<PageResp>,
}

/// One page, if it exists.
pub struct GetPageResp {
    pub page: Option<PageResp>,
}

} // verus!
