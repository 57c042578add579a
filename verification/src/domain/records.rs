//! Tags, tag groups and memos, as stored.

use crate::oid::Oid;
use vstd::prelude::*;

verus! {

/// A tag of a user; identifiers are UUIDs held as 128-bit numbers.
pub struct TagModel {
    pub id: u128,
    pub user: u128,
    pub name: String,
}

pub struct TagGroupModel {
    pub id: u128,
    pub user: u128,
    pub name: String,
    pub color: String,
}

#[allow(non_snake_case)]
pub struct MemoModel {
    pub id: Oid,
    pub user: u128,
    pub title: String,
    pub content: String,
    pub color: String,
    pub createdAt: i64,
    pub updatedAt: i64,
}

} // verus!
