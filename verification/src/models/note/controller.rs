//! The rules of the note service that lie between its database calls.

use super::error::Error;
use super::model::{CreateNoteSchema, NoteModel};
use super::response::{NoteData, NoteListResponse, NoteResponse, SingleNoteResponse};
use crate::clock::utc_now_millis;
use crate::db_error;
use crate::models::base::{fields_view, lemma_value_at_empty, lemma_value_at_push, push_field, value_at, DocField, FieldValue, FindResult, ValueView};
use crate::oid::{hex_lower, is_oid_hex, oid_bytes_of_hex, Oid};
use crate::text::{contains_text, seq_contains_text};
use vstd::prelude::*;

verus! {

/// The note service. Its notes live in one collection, indexed by owner.
pub struct MemoBMC;

/// The category a new note is filed under: the one given, or none (the empty text).
pub open spec fn note_category(body: CreateNoteSchema) -> Seq<char> {
    match body.category {
        Some(c) => c@,
        None => Seq::empty(),
    }
}

/// Whether a new note is published: as given, or not.
pub open spec fn note_published(body: CreateNoteSchema) -> bool {
    match body.published {
        Some(p) => p,
        None => false,
    }
}

/// The entries of a new note's document, in order. The defaults come first
/// (owner, times, `published`, `category`); the serialized request then
/// overwrites the entries it shares with them in place (so the owner named in
/// the request wins) and adds title and content.
pub open spec fn new_note_fields(body: CreateNoteSchema, now: i64) -> Seq<(Seq<char>, ValueView)> {
    seq![
        ("user"@, ValueView::User(body.user)),
        ("createdAt"@, ValueView::Time(now)),
        ("updatedAt"@, ValueView::Time(now)),
        ("published"@, ValueView::Flag(note_published(body))),
        ("category"@, ValueView::Text(note_category(body))),
        ("title"@, ValueView::Text(body.title@)),
        ("content"@, ValueView::Text(body.content@)),
    ]
}

/// A new note's document stores each field of the request under its own
/// name: the owner, title and content as given, `published` as given or
/// false, `category` as given or empty, and both times as `now`.
pub proof fn lemma_new_note_document(body: CreateNoteSchema, now: i64)
    ensures
        value_at(new_note_fields(body, now), "user"@) == Some(ValueView::User(body.user)),
        value_at(new_note_fields(body, now), "title"@) == Some(ValueView::Text(body.title@)),
        value_at(new_note_fields(body, now), "content"@) == Some(ValueView::Text(body.content@)),
        value_at(new_note_fields(body, now), "published"@) == Some(ValueView::Flag(match body.published { Some(p) => p, None => false })),
        value_at(new_note_fields(body, now), "category"@) == Some(ValueView::Text(match body.category { Some(c) => c@, None => Seq::empty() })),
        value_at(new_note_fields(body, now), "createdAt"@) == Some(ValueView::Time(now)),
        value_at(new_note_fields(body, now), "updatedAt"@) == Some(ValueView::Time(now)),
{
    broadcast use lemma_value_at_push, lemma_value_at_empty;
    reveal_strlit("user");
    reveal_strlit("title");
    reveal_strlit("content");
    reveal_strlit("published");
    reveal_strlit("category");
    reveal_strlit("createdAt");
    reveal_strlit("updatedAt");
    assert("user"@.len() == 4 && "title"@.len() == 5 && "content"@.len() == 7 && "category"@.len() == 8);
    assert("published"@.len() == 9 && "createdAt"@.len() == 9 && "updatedAt"@.len() == 9);
    assert("published"@[0] == 'p' && "createdAt"@[0] == 'c' && "updatedAt"@[0] == 'u');
    reveal_with_fuel(value_at, 8);
}

impl MemoBMC {
    /// The answer that shows a stored note. A stored note always has a
    /// category and a publication flag (the service reads them unchecked).
    pub fn doc_to_note(note: &NoteModel) -> (r: Result<NoteResponse, Error>)
        requires
            note.category is Some,
            note.published is Some,
        ensures
            r matches Ok(n) && {
                &&& n.id@ == hex_lower(note.id.bytes@)
                &&& n.user == note.user
                &&& n.title@ == note.title@
                &&& n.content@ == note.content@
                &&& n.category@ == note.category->0@
                &&& n.published == note.published->0
                &&& n.createdAt == note.createdAt
                &&& n.updatedAt == note.updatedAt
            },
    {
        let category = match &note.category {
            Some(c) => c.clone(),
            None => String::new(),
        };
        let published = match note.published {
            Some(p) => p,
            None => false,
        };
        Ok(NoteResponse {
            user: note.user,
            id: note.id.to_hex(),
            title: note.title.clone(),
            content: note.content.clone(),
            category,
            published,
            createdAt: note.createdAt,
            updatedAt: note.updatedAt,
        })
    }

    /// The document of a new note made at time `now`.
    pub fn create_note_document_at(body: &CreateNoteSchema, now: i64) -> (r: Vec<DocField>)
        ensures
            fields_view(r@) == new_note_fields(*body, now),
    {
        let published = match body.published {
            Some(p) => p,
            None => false,
        };
        let category = match &body.category {
            Some(c) => c.clone(),
            None => String::new(),
        };
        let mut r: Vec<DocField> = Vec::new();
        push_field(&mut r, "user", FieldValue::User(body.user));
        push_field(&mut r, "createdAt", FieldValue::Time(now));
        push_field(&mut r, "updatedAt", FieldValue::Time(now));
        push_field(&mut r, "published", FieldValue::Flag(published));
        push_field(&mut r, "category", FieldValue::Text(category));
        push_field(&mut r, "title", FieldValue::Text(body.title.clone()));
        push_field(&mut r, "content", FieldValue::Text(body.content.clone()));
        assert(fields_view(r@) =~= new_note_fields(*body, now));
        r
    }

    /// The document of a new note, made now.
    pub fn create_note_document(body: &CreateNoteSchema) -> (r: Vec<DocField>)
        ensures
            exists|now: i64| fields_view(r@) == new_note_fields(*body, now),
    {
        Self::create_note_document_at(body, utc_now_millis())
    }

    /// Parses a note identifier; a malformed one is an invalid-identifier error holding the text given.
    pub fn parse_id(id: &str) -> (r: Result<Oid, Error>)
        ensures
            r is Ok <==> is_oid_hex(id@),
            r matches Ok(o) ==> o.bytes@ == oid_bytes_of_hex(id@),
            !is_oid_hex(id@) ==> (r matches Err(Error::InvalidIDError(t)) && t@ == id@),
    {
        match Oid::parse(id) {
            Ok(o) => Ok(o),
            Err(_) => Err(Error::InvalidIDError(String::from_str(id))),
        }
    }

    /// Classifies a failed insert by the driver's message, as the record services do.
    pub fn classify_insert_error(message: String) -> (e: Error)
        ensures
            seq_contains_text(message@, crate::models::base::duplicate_key_marker()) ==> e == Error::MongoDuplicateError(message),
            !seq_contains_text(message@, crate::models::base::duplicate_key_marker()) ==> e == Error::DB(db_error::Error::MongoQueryError(message)),
    {
        if contains_text(message.as_str(), "E11000 duplicate key error collection") {
            Error::MongoDuplicateError(message)
        } else {
            Error::DB(db_error::Error::MongoQueryError(message))
        }
    }

    /// The answer to reading (or changing) the note `id`, from the outcome of
    /// the lookup: the note, not found (with the text given), or a query error.
    pub fn resolve_note(r: FindResult<NoteModel>, id: &str) -> (out: Result<SingleNoteResponse, Error>)
        requires
            r matches Ok(Some(d)) ==> d.category is Some && d.published is Some,
        ensures
            match r {
                Ok(Some(d)) => out matches Ok(s) && s.status@ == "success"@ && s.data.note.id@ == hex_lower(d.id.bytes@)
                    && s.data.note.title@ == d.title@ && s.data.note.content@ == d.content@
                    && s.data.note.category@ == d.category->0@ && s.data.note.published == d.published->0
                    && s.data.note.user == d.user && s.data.note.createdAt == d.createdAt && s.data.note.updatedAt == d.updatedAt,
                Ok(None) => (out matches Err(Error::NotFoundError(t)) && t@ == id@),
                Err(m) => (out matches Err(Error::DB(db_error::Error::MongoQueryError(m2))) && m2 == m),
            },
    {
        match r {
            Ok(Some(doc)) => {
                match Self::doc_to_note(&doc) {
                    Ok(note) => Ok(SingleNoteResponse { status: "success", data: NoteData { note } }),
                    Err(e) => Err(e),
                }
            },
            Ok(None) => Err(Error::NotFoundError(String::from_str(id))),
            Err(m) => Err(Error::DB(db_error::Error::MongoQueryError(m))),
        }
    }

    /// The outcome of deleting the note `id`: not found when nothing was deleted.
    pub fn delete_result(deleted_count: u64, id: &str) -> (r: Result<(), Error>)
        ensures
            deleted_count == 0 ==> (r matches Err(Error::NotFoundError(t)) && t@ == id@),
            deleted_count != 0 ==> r is Ok,
    {
        if deleted_count == 0 {
            Err(Error::NotFoundError(String::from_str(id)))
        } else {
            Ok(())
        }
    }

    pub fn list_response(notes: Vec<NoteResponse>) -> (r: NoteListResponse)
        ensures
            r.status@ == "success"@,
            r.results == notes.len(),
            r.notes == notes,
    {
        NoteListResponse { status: "success", results: notes.len(), notes }
    }
}

} // verus!
