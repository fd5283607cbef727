use vstd::prelude::*;

verus! {

/// What running a program printed.
pub struct PostCodeResponse {
    pub result: String,
}

} // verus!
