//! Requests and answers about the blocks of a task.

use crate::domain::task_block::BlockModel;
use crate::domain::types::BlockType;
use crate::oid::hex_lower;
use vstd::prelude::*;

verus! {

pub struct CreateBlockReq {
    pub src_task_id: String,
    pub block_type: BlockType,
}

/// A change to a block: absent fields stay as they are.
pub struct UpdateBlockReq {
    pub src_task_id: Option<String>,
    pub block_type: Option<BlockType>,
    pub body: Option<String>,
}

pub struct FilterBlockReq {
    pub src_task_id: Option<String>,
    pub block_type: Option<BlockType>,
}

pub struct BlockRes {
    pub id: String,
    pub src_task_id: String,
    pub block_type: BlockType,
    pub body: String,
}

impl BlockRes {
    /// What the service answers of a block: identifiers as text, and its fields.
    pub fn from_model(block: &BlockModel) -> (r: Self)
        ensures
            r.id@ == hex_lower(block.id.bytes@),
            r.src_task_id@ == hex_lower(block.src_task_id.bytes@),
            r.block_type == block.block_type,
            r.body@ == block.body@,
    {
        BlockRes {
            id: block.id.to_hex(),
            src_task_id: block.src_task_id.to_hex(),
            block_type: block.block_type,
            body: block.body.clone(),
        }
    }
}

pub struct BlockData {
    pub block: BlockRes,
}

pub struct SingleBlockRes {
    pub status: &'static str,
    pub data: BlockData,
}

pub struct BlockListRes {
    pub status: &'static str,
    pub results: usize,
    pub blocks: Vec<BlockRes>,
}

} // verus!
