//! Errors of the record services (categories, events, habits, properties).

use crate::db_error::{self, db_reply, lemma_db_reply_status};
use crate::error::{lemma_status_texts_differ, make_reply, reply_view, status_matches_code, ErrorReply, CONFLICT, FORBIDDEN, NOT_FOUND};
use crate::text::join3;
use vstd::prelude::*;

verus! {

#[derive(Debug)]
pub enum Error {
    DB(db_error::Error),
    /// An insert that MongoDB refused as a duplicate key; holds the driver's message.
    MongoDuplicateError(String),
    NotFoundError(String),
    WrongUserAccess,
}

/// The reply each service error is answered with.
pub open spec fn model_reply(e: Error) -> (u16, Seq<char>, Seq<char>) {
    match e {
        Error::DB(d) => db_reply(d),
        Error::MongoDuplicateError(_) => (409u16, "fail"@, "Note with that title already exists"@),
        Error::NotFoundError(id) => (404u16, "fail"@, "Note with ID: "@ + id@ + " not found"@),
        Error::WrongUserAccess => (403u16, "fail"@, "You do not have access to this note"@),
    }
}

/// Every service error is answered "fail" with a 4xx code when the request
/// was at fault, and "error" with code 500 otherwise.
pub proof fn lemma_model_reply_status(e: Error)
    ensures
        status_matches_code(model_reply(e)),
{
    lemma_status_texts_differ();
    if let Error::DB(d) = e {
        lemma_db_reply_status(d);
    }
}

impl Error {
    /// The reply that answers this error; a database error answers as the database layer does.
    pub fn into_response(self) -> (r: ErrorReply)
        ensures
            reply_view(r) == model_reply(self),
    {
        match self {
            Error::DB(e) => e.into_response(),
            Error::MongoDuplicateError(_) => make_reply(CONFLICT, "fail", String::from_str("Note with that title already exists")),
            Error::NotFoundError(id) => make_reply(NOT_FOUND, "fail", join3("Note with ID: ", id.as_str(), " not found")),
            Error::WrongUserAccess => make_reply(FORBIDDEN, "fail", String::from_str("You do not have access to this note")),
        }
    }
}

} // verus!
