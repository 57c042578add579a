//! Requests about memos.

use crate::domain::records::MemoModel;
use crate::oid::hex_lower;
use vstd::prelude::*;

verus! {

pub struct CreateMemoReq {
    pub title: String,
    pub color: String,
}

/// A change to a memo: absent fields stay as they are.
pub struct UpdateMemoReq {
    pub title: Option<String>,
    pub content: Option<String>,
    pub color: Option<String>,
}

#[allow(non_snake_case)]
pub struct MemoRes {
    pub id: String,
    pub user: u128,
    pub title: String,
    pub content: String,
    pub color: String,
    pub createdAt: i64,
    pub updatedAt: i64,
}

impl MemoRes {
    /// What the service answers of a memo: its identifier as text, and its fields.
    pub fn from_model(memo: &MemoModel) -> (r: Self)
        ensures
            r.id@ == hex_lower(memo.id.bytes@),
            r.user == memo.user,
            r.title@ == memo.title@,
            r.content@ == memo.content@,
            r.color@ == memo.color@,
            r.createdAt == memo.createdAt,
            r.updatedAt == memo.updatedAt,
    {
        MemoRes {
            id: memo.id.to_hex(),
            user: memo.user,
            title: memo.title.clone(),
            content: memo.content.clone(),
            color: memo.color.clone(),
            createdAt: memo.createdAt,
            updatedAt: memo.updatedAt,
        }
    }
}

pub struct MemoData {
    pub memo: MemoRes,
}

pub struct SingleMemoRes {
    pub status: &'static str,
    pub data: MemoData,
}

pub struct MemoListRes {
    pub status: &'static str,
    pub results: usize,
    pub memos: Vec<MemoRes>,
}

} // verus!
