//! What the service answers about memos.

use vstd::prelude::*;

verus! {

pub struct GenericResponse {
    pub status: String,
    pub message: String,
}

#[allow(non_snake_case)]
pub struct MemoResponse {
    pub id: String,
    pub user: u128,
    pub title: String,
    pub content: String,
    pub color: String,
    pub createdAt: i64,
    pub updatedAt: i64,
}

pub struct MemoData {
    pub memo: MemoResponse,
}

pub struct SingleMemoResponse {
    pub status: &'static str,
    pub data: MemoData,
}

pub struct MemoListResponse {
    pub status: &'static str,
    pub results: usize,
    pub memos: Vec<MemoResponse>,
}

} // verus!
