//! What the note service answers.

use vstd::prelude::*;

verus! {

#[allow(non_snake_case)]
pub struct NoteResponse {
    pub id: String,
    pub user: u128,
    pub title: String,
    pub content: String,
    pub category: String,
    pub published: bool,
    pub createdAt: i64,
    pub updatedAt: i64,
}

pub struct NoteData {
    pub note: NoteResponse,
}

pub struct SingleNoteResponse {
    pub status: &'static str,
    pub data: NoteData,
}

pub struct NoteListResponse {
    pub status: &'static str,
    pub results: usize,
    pub notes: Vec<NoteResponse>,
}

} // verus!
