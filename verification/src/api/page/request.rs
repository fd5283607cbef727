use vstd::prelude::*;

use crate::api::util::request::Pagination;

verus! {

/// The query of a page listing: an optional category and a page of results.
pub struct GetPagesParam {
    pub category: Option<String>,
    pub pagination: Pagination,
}

/// The body of a cover-image request: what the image should show.
pub struct GenerateCoverImageRequest {
    pub prompt: String,
}

/// The body of a summary request: the text to summarize.
pub struct GenerateSummarizeParam {
    pub text: String,
}

} // verus!
