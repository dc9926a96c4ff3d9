//! `GET /oauth/avatar/{cid}`: serves mirrored avatars.
//!
//! [`handle_avatar`] says what to fetch, and [`avatar_reply`] answers with what
//! came. A missing object and a missing store are both not found.

use axum::http::HeaderMap;
use object_store::path::Path;
use vstd::prelude::*;

use crate::avatar_storage::{sniff_image_content_type, AvatarStorage};
use crate::headers::{header_value, insert_header, new_headers};
use crate::reply::{json_error, ErrorReply, NOT_FOUND, OK};

verus! {

/// How long an avatar may be cached. Its address names its content, so it never
/// changes.
pub const CACHE_CONTROL: &'static str = "public, max-age=31536000, immutable";

/// A served avatar.
pub struct AvatarReply {
    /// The HTTP status.
    pub status: u16,
    /// The content type and the cache policy.
    pub headers: HeaderMap,
    /// The image.
    pub body: Vec<u8>,
}

/// The headers of a served avatar: the content type that its bytes speak for, and
/// the cache policy.
pub open spec fn avatar_headers(bytes: Seq<u8>) -> Map<Seq<char>, Seq<Seq<u8>>> {
    map![
        "content-type"@ => seq![vstd::utf8::encode_utf8(
            crate::avatar_storage::image_content_type(bytes),
        )],
        "cache-control"@ => seq![vstd::utf8::encode_utf8(CACHE_CONTROL@)],
    ]
}

/// Takes a request up: where in the store to fetch the avatar from.
pub fn handle_avatar(storage: &Option<AvatarStorage>, cid: &str) -> (r: Result<Path, ErrorReply>)
    ensures
        r is Ok <==> storage is Some,
        r matches Ok(location) ==> crate::avatar_storage::is_location_of(location, cid@),
        r matches Err(reply) ==> reply.conveys(
            crate::reply::absence_refusal("avatar storage not configured"@),
        ),
{
    match storage {
        Some(storage) => Ok(storage.get(cid)),
        None => Err(json_error(NOT_FOUND, "avatar storage not configured")),
    }
}

/// The names and the values of an avatar's headers are such as a header may have.
proof fn lemma_values_are_valid(bytes: Seq<u8>)
    ensures
        crate::headers::is_header_name("content-type"@),
        crate::headers::is_header_name("cache-control"@),
        crate::headers::is_header_value(
            vstd::utf8::encode_utf8(crate::avatar_storage::image_content_type(bytes)),
        ),
        crate::headers::is_header_value(vstd::utf8::encode_utf8(CACHE_CONTROL@)),
{
    reveal_strlit("content-type");
    reveal_strlit("cache-control");
    reveal_strlit("image/png");
    reveal_strlit("image/jpeg");
    reveal_strlit("image/gif");
    reveal_strlit("image/webp");
    reveal_strlit("image/heic");
    reveal_strlit("application/octet-stream");
    reveal_strlit("public, max-age=31536000, immutable");
    let content_type = crate::avatar_storage::image_content_type(bytes);
    assert forall|i: int| 0 <= i < content_type.len() implies 32 <= #[trigger] content_type[i]
        < 127 by {}
    vstd::utf8::is_ascii_chars_encode_utf8(content_type);
    vstd::utf8::is_ascii_chars_encode_utf8(CACHE_CONTROL@);
}

/// Answers with the bytes that came from the store, or with the fault that did.
pub fn avatar_reply(fetched: Result<Vec<u8>, String>) -> (r: Result<AvatarReply, ErrorReply>)
    ensures
        r is Ok <==> fetched is Ok,
        r matches Ok(reply) ==> {
            &&& reply.status == OK
            &&& fetched == Ok::<Vec<u8>, String>(reply.body)
            &&& crate::headers::header_values(reply.headers) == avatar_headers(reply.body@)
        },
        r matches Err(reply) ==> reply.conveys(crate::reply::absence_refusal("avatar not found"@)),
{
    match fetched {
        Ok(body) => {
            let mut headers = new_headers();
            let content_type = sniff_image_content_type(body.as_slice());
            proof {
                lemma_values_are_valid(body@);
            }
            if let Ok(value) = header_value(content_type) {
                insert_header(&mut headers, "content-type", value);
            }
            if let Ok(value) = header_value(CACHE_CONTROL) {
                insert_header(&mut headers, "cache-control", value);
            }
            Ok(AvatarReply { status: OK, headers, body })
        },
        Err(_) => Err(json_error(NOT_FOUND, "avatar not found")),
    }
}

} // verus!
