//! Error replies: an HTTP status and a JSON body that says what was wrong.

use vstd::prelude::*;

use crate::json::{insert_text, new_object, JsonObject, Scalar};

verus! {



/// HTTP 200.
pub const OK: u16 = 200;

/// HTTP 400.
pub const BAD_REQUEST: u16 = 400;

/// HTTP 401.
pub const UNAUTHORIZED: u16 = 401;

/// HTTP 404.
pub const NOT_FOUND: u16 = 404;

/// HTTP 500.
pub const INTERNAL_SERVER_ERROR: u16 = 500;

/// What an error reply tells the client.
#[verifier::ext_equal]
pub struct Refusal {
    /// The HTTP status.
    pub status: u16,
    /// The error code.
    pub error: Seq<char>,
    /// The description for people.
    pub description: Seq<char>,
}

impl Refusal {
    /// The members of the body: the code and the description, and nothing else.
    pub open spec fn members(self) -> Map<Seq<char>, Scalar> {
        map![
            "error"@ => Scalar::Text(self.error),
            "error_description"@ => Scalar::Text(self.description),
        ]
    }
}

/// The refusal of a client that is unknown, public or not authenticated.
pub open spec fn client_refusal(description: Seq<char>) -> Refusal {
    Refusal { status: UNAUTHORIZED, error: "invalid_client"@, description }
}

/// The refusal of a malformed request.
pub open spec fn request_refusal(description: Seq<char>) -> Refusal {
    Refusal { status: BAD_REQUEST, error: "invalid_request"@, description }
}

/// The refusal when the server itself failed.
pub open spec fn server_refusal(description: Seq<char>) -> Refusal {
    Refusal { status: INTERNAL_SERVER_ERROR, error: "server_error"@, description }
}

/// The refusal when there is nothing to serve.
pub open spec fn absence_refusal(description: Seq<char>) -> Refusal {
    Refusal { status: NOT_FOUND, error: "not_found"@, description }
}

/// An error reply.
pub struct ErrorReply {
    /// The HTTP status.
    pub status: u16,
    /// The JSON body.
    pub body: JsonObject,
}

impl ErrorReply {
    /// Whether this reply conveys exactly `refusal`.
    pub open spec fn conveys(self, refusal: Refusal) -> bool {
        &&& self.status == refusal.status
        &&& crate::json::object_members(self.body) == refusal.members()
    }
}

/// An error reply with the given status, code and description.
pub fn error_response(status: u16, error: &str, description: &str) -> (reply: ErrorReply)
    ensures
        reply.conveys((Refusal { status, error: error@, description: description@ })),
{
    let mut body = new_object();
    insert_text(&mut body, "error", error);
    insert_text(&mut body, "error_description", description);
    ErrorReply { status, body }
}

/// 401 `invalid_client`.
pub fn invalid_client(description: &str) -> (reply: ErrorReply)
    ensures
        reply.conveys(client_refusal(description@)),
{
    error_response(UNAUTHORIZED, "invalid_client", description)
}

/// 400 `invalid_request`.
pub fn invalid_request(description: &str) -> (reply: ErrorReply)
    ensures
        reply.conveys(request_refusal(description@)),
{
    error_response(BAD_REQUEST, "invalid_request", description)
}

/// 500 `server_error`.
pub fn server_error(description: &str) -> (reply: ErrorReply)
    ensures
        reply.conveys(server_refusal(description@)),
{
    error_response(INTERNAL_SERVER_ERROR, "server_error", description)
}

/// A `not_found` body under the given status.
pub fn json_error(status: u16, description: &str) -> (reply: ErrorReply)
    ensures
        reply.conveys((Refusal { status, error: "not_found"@, description: description@ })),
{
    error_response(status, "not_found", description)
}

} // verus!
