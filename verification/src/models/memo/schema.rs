//! What a client sends to create or change a memo.

use vstd::prelude::*;

verus! {

pub struct CreateMemoSchema {
    pub user: u128,
    pub title: String,
    pub color: String,
}

/// A change to a memo: absent fields stay as they are.
pub struct UpdateMemoSchema {
    pub title: Option<String>,
    pub content: Option<String>,
    pub color: Option<String>,
}

/// The page of a listing that a client asks for; both count from 1.
pub struct FilterOptions {
    pub page: Option<usize>,
    pub limit: Option<usize>,
}

} // verus!
