use vstd::prelude::*;

use crate::cloudflare::models::text_generation::Message;

verus! {

/// A search: the prompt, the earlier turns, and the session it continues.
pub struct SearchParam {
    pub prompt: String,
    pub history: Vec<Message>,
    pub session: Option<String>,
}

} // verus!
