//! Errors of the database layer. Each variant that wraps an error of the
//! MongoDB driver holds that error's display text.

use crate::error::{lemma_status_texts_differ, make_reply, reply_view, status_matches_code, ErrorReply, BAD_REQUEST, CONFLICT, INTERNAL_SERVER_ERROR, NOT_FOUND};
use crate::text::join2;
use crate::text::join3;
use vstd::prelude::*;

verus! {

#[derive(Debug)]
pub enum Error {
    MongoError(String),
    MongoErrorKind(String),
    MongoDuplicateError(String),
    MongoQueryError(String),
    MongoSerializeBsonError(String),
    MongoDeserializeBsonError(String),
    MongoDataError(String),
    MongoGetOidError(String),
    InvalidIDError(String),
    NotFoundError(String),
}

/// The reply each database error is answered with: status code, `status` text, message.
pub open spec fn db_reply(e: Error) -> (u16, Seq<char>, Seq<char>) {
    match e {
        Error::MongoErrorKind(m) => (500u16, "error"@, "MongoDB error kind: "@ + m@),
        Error::MongoDuplicateError(_) => (409u16, "fail"@, "Note with that title already exists"@),
        Error::InvalidIDError(id) => (400u16, "fail"@, "invalid ID: "@ + id@),
        Error::NotFoundError(id) => (404u16, "fail"@, "Note with ID: "@ + id@ + " not found"@),
        Error::MongoError(m) => (500u16, "error"@, "MongoDB error: "@ + m@),
        Error::MongoQueryError(m) => (500u16, "error"@, "MongoDB error: "@ + m@),
        Error::MongoSerializeBsonError(m) => (500u16, "error"@, "MongoDB error: "@ + m@),
        Error::MongoDeserializeBsonError(m) => (500u16, "error"@, "MongoDB error: "@ + m@),
        Error::MongoDataError(m) => (500u16, "error"@, "MongoDB error: "@ + m@),
        Error::MongoGetOidError(m) => (500u16, "error"@, "MongoDB error: "@ + m@),
    }
}

/// Every database error is answered "fail" with a 4xx code when the request
/// was at fault, and "error" with code 500 when the database was.
pub proof fn lemma_db_reply_status(e: Error)
    ensures
        status_matches_code(db_reply(e)),
{
    lemma_status_texts_differ();
}

impl Error {
    /// The reply that answers this error.
    pub fn into_response(self) -> (r: ErrorReply)
        ensures
            reply_view(r) == db_reply(self),
    {
        match self {
            Error::MongoErrorKind(m) => make_reply(INTERNAL_SERVER_ERROR, "error", join2("MongoDB error kind: ", m.as_str())),
            Error::MongoDuplicateError(_) => make_reply(CONFLICT, "fail", String::from_str("Note with that title already exists")),
            Error::InvalidIDError(id) => make_reply(BAD_REQUEST, "fail", join2("invalid ID: ", id.as_str())),
            Error::NotFoundError(id) => make_reply(NOT_FOUND, "fail", join3("Note with ID: ", id.as_str(), " not found")),
            Error::MongoError(m) => make_reply(INTERNAL_SERVER_ERROR, "error", join2("MongoDB error: ", m.as_str())),
            Error::MongoQueryError(m) => make_reply(INTERNAL_SERVER_ERROR, "error", join2("MongoDB error: ", m.as_str())),
            Error::MongoSerializeBsonError(m) => make_reply(INTERNAL_SERVER_ERROR, "error", join2("MongoDB error: ", m.as_str())),
            Error::MongoDeserializeBsonError(m) => make_reply(INTERNAL_SERVER_ERROR, "error", join2("MongoDB error: ", m.as_str())),
            Error::MongoDataError(m) => make_reply(INTERNAL_SERVER_ERROR, "error", join2("MongoDB error: ", m.as_str())),
            Error::MongoGetOidError(m) => make_reply(INTERNAL_SERVER_ERROR, "error", join2("MongoDB error: ", m.as_str())),
        }
    }
}

} // verus!
