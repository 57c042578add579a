//! Errors of the note service.

use crate::db_error::{self, db_reply, lemma_db_reply_status};
use crate::error::{lemma_status_texts_differ, make_reply, reply_view, status_matches_code, ErrorReply, BAD_REQUEST, CONFLICT, FORBIDDEN, NOT_FOUND};
use crate::models::error::{model_reply, Error as ModelError};
use crate::text::{join2, join3, lemma_contains_middle, seq_contains_text};
use vstd::prelude::*;

verus! {

#[derive(Debug)]
pub enum Error {
    DB(db_error::Error),
    /// An insert that MongoDB refused as a duplicate key; holds the driver's message.
    MongoDuplicateError(String),
    InvalidIDError(String),
    NotFoundError(String),
    WrongUserAccess,
}

/// The reply each note-service error is answered with.
pub open spec fn note_reply(e: Error) -> (u16, Seq<char>, Seq<char>) {
    match e {
        Error::DB(d) => db_reply(d),
        Error::MongoDuplicateError(_) => (409u16, "fail"@, "Note with that title already exists"@),
        Error::InvalidIDError(id) => (400u16, "fail"@, "invalid ID: "@ + id@),
        Error::NotFoundError(id) => (404u16, "fail"@, "Note with ID: "@ + id@ + " not found"@),
        Error::WrongUserAccess => (403u16, "fail"@, "You do not have access to this note"@),
    }
}

/// Every note-service error is answered "fail" with a 4xx code when the
/// request was at fault, and "error" with code 500 otherwise.
pub proof fn lemma_note_reply_status(e: Error)
    ensures
        status_matches_code(note_reply(e)),
{
    lemma_status_texts_differ();
    if let Error::DB(d) = e {
        lemma_db_reply_status(d);
    }
}

/// A database error is answered by the note service and the record services
/// exactly as the database layer answers it.
pub proof fn lemma_db_errors_pass_through(d: db_error::Error)
    ensures
        note_reply(Error::DB(d)) == db_reply(d),
        model_reply(ModelError::DB(d)) == db_reply(d),
{
}

/// Every layer answers a failure by its kind, and alike: a missing record
/// with 404 "fail" naming the identifier, an invalid identifier with 400
/// "fail" naming it, a duplicate with 409 "fail", a refused access with 403
/// "fail", and a failure of the database itself with 500 "error" carrying
/// the driver's message.
pub proof fn lemma_reply_by_kind(id: String, m: String)
    ensures
        note_reply(Error::NotFoundError(id)) == model_reply(ModelError::NotFoundError(id)),
        model_reply(ModelError::NotFoundError(id)) == db_reply(db_error::Error::NotFoundError(id)),
        note_reply(Error::NotFoundError(id)).0 == 404,
        note_reply(Error::NotFoundError(id)).1 == "fail"@,
        seq_contains_text(note_reply(Error::NotFoundError(id)).2, id@),
        note_reply(Error::InvalidIDError(id)) == db_reply(db_error::Error::InvalidIDError(id)),
        note_reply(Error::InvalidIDError(id)).0 == 400,
        note_reply(Error::InvalidIDError(id)).1 == "fail"@,
        seq_contains_text(note_reply(Error::InvalidIDError(id)).2, id@),
        note_reply(Error::MongoDuplicateError(m)) == model_reply(ModelError::MongoDuplicateError(m)),
        model_reply(ModelError::MongoDuplicateError(m)) == db_reply(db_error::Error::MongoDuplicateError(m)),
        note_reply(Error::MongoDuplicateError(m)).0 == 409,
        note_reply(Error::MongoDuplicateError(m)).1 == "fail"@,
        note_reply(Error::WrongUserAccess) == model_reply(ModelError::WrongUserAccess),
        note_reply(Error::WrongUserAccess).0 == 403,
        note_reply(Error::WrongUserAccess).1 == "fail"@,
        db_reply(db_error::Error::MongoError(m)).0 == 500 && db_reply(db_error::Error::MongoError(m)).1 == "error"@
            && seq_contains_text(db_reply(db_error::Error::MongoError(m)).2, m@),
        db_reply(db_error::Error::MongoErrorKind(m)).0 == 500 && db_reply(db_error::Error::MongoErrorKind(m)).1 == "error"@
            && seq_contains_text(db_reply(db_error::Error::MongoErrorKind(m)).2, m@),
        db_reply(db_error::Error::MongoQueryError(m)).0 == 500 && db_reply(db_error::Error::MongoQueryError(m)).1 == "error"@
            && seq_contains_text(db_reply(db_error::Error::MongoQueryError(m)).2, m@),
        db_reply(db_error::Error::MongoSerializeBsonError(m)).0 == 500 && db_reply(db_error::Error::MongoSerializeBsonError(m)).1 == "error"@
            && seq_contains_text(db_reply(db_error::Error::MongoSerializeBsonError(m)).2, m@),
        db_reply(db_error::Error::MongoDeserializeBsonError(m)).0 == 500 && db_reply(db_error::Error::MongoDeserializeBsonError(m)).1 == "error"@
            && seq_contains_text(db_reply(db_error::Error::MongoDeserializeBsonError(m)).2, m@),
        db_reply(db_error::Error::MongoDataError(m)).0 == 500 && db_reply(db_error::Error::MongoDataError(m)).1 == "error"@
            && seq_contains_text(db_reply(db_error::Error::MongoDataError(m)).2, m@),
        db_reply(db_error::Error::MongoGetOidError(m)).0 == 500 && db_reply(db_error::Error::MongoGetOidError(m)).1 == "error"@
            && seq_contains_text(db_reply(db_error::Error::MongoGetOidError(m)).2, m@),
{
    lemma_contains_middle("Note with ID: "@, id@, " not found"@);
    lemma_contains_middle("invalid ID: "@, id@, Seq::empty());
    lemma_contains_middle("MongoDB error: "@, m@, Seq::empty());
    lemma_contains_middle("MongoDB error kind: "@, m@, Seq::empty());
}

impl Error {
    /// The reply that answers this error; a database error answers as the database layer does.
    pub fn into_response(self) -> (r: ErrorReply)
        ensures
            reply_view(r) == note_reply(self),
    {
        match self {
            Error::DB(e) => e.into_response(),
            Error::MongoDuplicateError(_) => make_reply(CONFLICT, "fail", String::from_str("Note with that title already exists")),
            Error::InvalidIDError(id) => make_reply(BAD_REQUEST, "fail", join2("invalid ID: ", id.as_str())),
            Error::NotFoundError(id) => make_reply(NOT_FOUND, "fail", join3("Note with ID: ", id.as_str(), " not found")),
            Error::WrongUserAccess => make_reply(FORBIDDEN, "fail", String::from_str("You do not have access to this note")),
        }
    }
}

} // verus!
