use vstd::prelude::*;

pub mod response;

use self::response::{BlockResp, GetBlockResp, GetBlocksResp};

verus! {

/// A stored block: the page it belongs to, and its contents.
pub struct BlockRow {
    pub notion_page_id: String,
    pub contents: String,
}

/// The answer about one block, from its row.
pub fn block_response(row: BlockRow) -> (r: BlockResp)
    ensures
        r.parent_id@ == row.notion_page_id@,
        r.contents@ == row.contents@,
{
    BlockResp { parent_id: row.notion_page_id, contents: row.contents }
}

/// The listing of blocks: one per row, in order.
pub fn blocks_response(rows: Vec<BlockRow>) -> (r: GetBlocksResp)
    ensures
        r.blocks@.len() == rows@.len(),
        forall|i: int|
            0 <= i < rows@.len() ==> (#[trigger] r.blocks@[i]).parent_id@ == rows@[i].notion_page_id@
                && r.blocks@[i].contents@ == rows@[i].contents@,
{
    let mut blocks: Vec<BlockResp> = Vec::new();
    let mut rows = rows;
    let ghost all = rows@;
    let n = rows.len();
    let mut taken: usize = 0;
    while taken < n
        invariant
            n == all.len(),
            taken <= n,
            rows@ == all.skip(taken as int),
            blocks@.len() == taken,
            forall|i: int|
                0 <= i < taken ==> (#[trigger] blocks@[i]).parent_id@ == all[i].notion_page_id@
                    && blocks@[i].contents@ == all[i].contents@,
        decreases n - taken,
    {
        let row = rows.remove(0);
        assert(row == all[taken as int]);
        assert(rows@ =~= all.skip(taken + 1));
        blocks.push(block_response(row));
        taken = taken + 1;
    }
    GetBlocksResp { blocks }
}

/// The answer about the block of a page: that block, or nothing.
pub fn get_block_response(row: Option<BlockRow>) -> (r: GetBlockResp)
    ensures
        match row {
            Some(b) => r.block matches Some(x) && x.parent_id@ == b.notion_page_id@ && x.contents@
                == b.contents@,
            None => r.block is None,
        },
{
    match row {
        Some(b) => GetBlockResp { block: Some(block_response(b)) },
        None => GetBlockResp { block: None },
    }
}

} // verus!
