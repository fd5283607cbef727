use vstd::prelude::*;

verus! {

/// A program to compile and run.
pub struct PostCodeRequest {
    pub code: String,
}

} // verus!
