//! The body of an error reply, and the status code it goes with.

use vstd::prelude::*;

verus! {

/// The JSON body of an error reply: `status` is "fail" or "error".
pub struct ErrorResponse {
    pub status: String,
    pub message: String,
}

/// An HTTP status code with the error body it carries.
pub struct ErrorReply {
    pub status_code: u16,
    pub body: ErrorResponse,
}

pub const BAD_REQUEST: u16 = 400;
pub const FORBIDDEN: u16 = 403;
pub const NOT_FOUND: u16 = 404;
pub const CONFLICT: u16 = 409;
pub const INTERNAL_SERVER_ERROR: u16 = 500;

/// The status code, the `status` text and the message of a reply, as plain values.
pub open spec fn reply_view(r: ErrorReply) -> (u16, Seq<char>, Seq<char>) {
    (r.status_code, r.body.status@, r.body.message@)
}

/// A reply's `status` text tells the kind of failure: "fail" for a refused
/// request (a 4xx code), "error" for a failure of the service (code 500).
pub open spec fn status_matches_code(r: (u16, Seq<char>, Seq<char>)) -> bool {
    &&& (r.1 == "fail"@ <==> 400 <= r.0 < 500)
    &&& (r.1 == "error"@ <==> r.0 == 500)
}

/// The two `status` texts differ.
pub proof fn lemma_status_texts_differ()
    ensures
        "fail"@ != "error"@,
{
    reveal_strlit("fail");
    reveal_strlit("error");
    assert("fail"@[0] != "error"@[0]);
}

/// Builds a reply from its three parts.
pub fn make_reply(code: u16, status: &str, message: String) -> (r: ErrorReply)
    ensures
        reply_view(r) == (code, status@, message@),
{
    ErrorReply { status_code: code, body: ErrorResponse { status: String::from_str(status), message } }
}

} // verus!
