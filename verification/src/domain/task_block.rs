//! Blocks of content inside a task or note.

use super::types::BlockType;
use crate::oid::Oid;
use vstd::prelude::*;

verus! {

pub struct BlockModel {
    pub id: Oid,
    pub src_task_id: Oid,
    pub block_type: BlockType,
    pub body: String,
}

} // verus!
