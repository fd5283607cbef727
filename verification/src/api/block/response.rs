use vstd::prelude::*;

verus! {

/// One block: the page it belongs to, and its contents.
pub struct BlockResp {
    pub parent_id: String,
    pub contents: String,
}

/// A listing of blocks.
pub struct GetBlocksResp {
    pub blocks: Vec<BlockResp>,
}

/// One block, if it exists.
pub struct GetBlockResp {
    pub block: Option<BlockResp>,
}

} // verus!
