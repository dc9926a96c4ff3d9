//! What every call of the avatar functions comes to: laws on their arguments and
//! results alone.

use object_store::aws::{AmazonS3, AmazonS3Builder};
use object_store::path::Path;
use vstd::prelude::*;

use crate::avatar::{avatar_reply, handle_avatar, AvatarReply};
use crate::avatar_storage::{
    get_failure, get_outcome, get_stream_failure, picture_url, put_failure, put_outcome,
    sniff_image_content_type, AvatarEnv, AvatarStorage, Download, PutRequest,
};
use crate::reply::ErrorReply;
use crate::text::{bytes_start_with, text_starts_with};

verus! {

/// One byte string begins with another exactly when it is that one with something
/// behind it.
pub proof fn law_bytes_begin_with_their_prefix(
    bytes: &[u8],
    prefix: &[u8],
    rest: Seq<u8>,
    r: bool,
)
    requires
        call_ensures(bytes_start_with, (bytes, prefix), r),
    ensures
        bytes@ == prefix@ + rest ==> r,
        r ==> bytes@ == prefix@ + bytes@.skip(prefix@.len() as int),
{
    if bytes@ == prefix@ + rest {
        assert(bytes@.subrange(0, prefix@.len() as int) =~= prefix@);
    }
    if r {
        assert(bytes@ =~= bytes@.subrange(0, prefix@.len() as int) + bytes@.skip(
            prefix@.len() as int,
        ));
    }
}

/// One text begins with another exactly when it is that one with something behind
/// it.
pub proof fn law_text_begins_with_its_prefix(text: &str, prefix: &str, rest: Seq<char>, r: bool)
    requires
        call_ensures(text_starts_with, (text, prefix), r),
    ensures
        text@ == prefix@ + rest ==> r,
        r ==> text@ == prefix@ + text@.skip(prefix@.len() as int),
{
    if text@ == prefix@ + rest {
        assert(text@.subrange(0, prefix@.len() as int) =~= prefix@);
    }
    if r {
        assert(text@ =~= text@.subrange(0, prefix@.len() as int) + text@.skip(
            prefix@.len() as int,
        ));
    }
}

/// Whatever begins as a PNG file does is a PNG image, whatever follows.
pub proof fn law_png_is_recognised(bytes: &[u8], rest: Seq<u8>, content_type: &'static str)
    requires
        call_ensures(sniff_image_content_type, (bytes,), content_type),
        bytes@ == seq![0x89u8, 0x50, 0x4e, 0x47, 0x0d, 0x0a, 0x1a, 0x0a] + rest,
    ensures
        content_type@ == "image/png"@,
{
    assert(bytes@.subrange(0, 8) =~= crate::avatar_storage::png_signature());
}

/// Whatever begins as a JPEG file does is a JPEG image, whatever follows.
pub proof fn law_jpeg_is_recognised(bytes: &[u8], rest: Seq<u8>, content_type: &'static str)
    requires
        call_ensures(sniff_image_content_type, (bytes,), content_type),
        bytes@ == seq![0xffu8, 0xd8, 0xff] + rest,
    ensures
        content_type@ == "image/jpeg"@,
{
    lemma_first_byte(bytes@);
    assert(bytes@[0] == 0xff);
    assert(bytes@.subrange(0, 3) =~= crate::avatar_storage::jpeg_signature());
}

/// Whatever begins with `GIF8` is a GIF image, whatever follows.
pub proof fn law_gif_is_recognised(bytes: &[u8], rest: Seq<u8>, content_type: &'static str)
    requires
        call_ensures(sniff_image_content_type, (bytes,), content_type),
        bytes@ == seq![0x47u8, 0x49, 0x46, 0x38] + rest,
    ensures
        content_type@ == "image/gif"@,
{
    lemma_first_byte(bytes@);
    assert(bytes@[0] == 0x47);
    assert(bytes@.subrange(0, 4) =~= crate::avatar_storage::gif_signature());
}

/// Whatever begins with `RIFF`, any four bytes and `WEBP` is a WebP image, whatever
/// follows.
pub proof fn law_webp_is_recognised(
    bytes: &[u8],
    length: Seq<u8>,
    rest: Seq<u8>,
    content_type: &'static str,
)
    requires
        call_ensures(sniff_image_content_type, (bytes,), content_type),
        length.len() == 4,
        bytes@ == seq![0x52u8, 0x49, 0x46, 0x46] + length + seq![0x57u8, 0x45, 0x42, 0x50] + rest,
    ensures
        content_type@ == "image/webp"@,
{
    lemma_first_byte(bytes@);
    assert(bytes@[0] == 0x52);
    assert(bytes@.subrange(0, 4) =~= crate::avatar_storage::riff_signature());
    assert(bytes@.subrange(8, 12) =~= crate::avatar_storage::webp_mark());
}

/// Whatever begins with three zero bytes is taken for a HEIC image, whatever
/// follows.
pub proof fn law_heic_is_recognised(bytes: &[u8], rest: Seq<u8>, content_type: &'static str)
    requires
        call_ensures(sniff_image_content_type, (bytes,), content_type),
        bytes@ == seq![0u8, 0, 0] + rest,
    ensures
        content_type@ == "image/heic"@,
{
    lemma_first_byte(bytes@);
    assert(bytes@[0] == 0);
    assert(bytes@.subrange(0, 3) =~= crate::avatar_storage::heic_signature());
}

/// Bytes that begin as no known image does are called nothing in particular.
pub proof fn law_other_bytes_are_not_recognised(bytes: &[u8], content_type: &'static str)
    requires
        call_ensures(sniff_image_content_type, (bytes,), content_type),
        !seq![0x89u8, 0x50, 0x4e, 0x47, 0x0d, 0x0a, 0x1a, 0x0a].is_prefix_of(bytes@),
        !seq![0xffu8, 0xd8, 0xff].is_prefix_of(bytes@),
        !seq![0x47u8, 0x49, 0x46, 0x38].is_prefix_of(bytes@),
        !(seq![0x52u8, 0x49, 0x46, 0x46].is_prefix_of(bytes@) && bytes@.len() >= 12
            && bytes@.subrange(8, 12) == seq![0x57u8, 0x45, 0x42, 0x50]),
        !seq![0u8, 0, 0].is_prefix_of(bytes@),
    ensures
        content_type@ == "application/octet-stream"@,
{
}

/// More bytes behind a recognised image do not change what it is.
pub proof fn law_more_bytes_keep_the_content_type(
    bytes: &[u8],
    content_type: &'static str,
    longer: &[u8],
    rest: Seq<u8>,
    longer_content_type: &'static str,
)
    requires
        call_ensures(sniff_image_content_type, (bytes,), content_type),
        call_ensures(sniff_image_content_type, (longer,), longer_content_type),
        longer@ == bytes@ + rest,
        content_type@ != "application/octet-stream"@,
    ensures
        longer_content_type@ == content_type@,
{
    lemma_first_byte(bytes@);
    lemma_first_byte(longer@);
    if bytes@.len() >= 3 {
        assert(longer@[0] == bytes@[0]);
        assert(longer@.subrange(0, 3) =~= bytes@.subrange(0, 3));
    }
    if bytes@.len() >= 4 {
        assert(longer@.subrange(0, 4) =~= bytes@.subrange(0, 4));
    }
    if bytes@.len() >= 8 {
        assert(longer@.subrange(0, 8) =~= bytes@.subrange(0, 8));
    }
    if bytes@.len() >= 12 {
        assert(longer@.subrange(8, 12) =~= bytes@.subrange(8, 12));
    }
}

/// Each signature has its own first byte.
proof fn lemma_first_byte(bytes: Seq<u8>)
    ensures
        crate::avatar_storage::png_signature().is_prefix_of(bytes) ==> bytes[0] == 0x89,
        crate::avatar_storage::jpeg_signature().is_prefix_of(bytes) ==> bytes[0] == 0xff,
        crate::avatar_storage::gif_signature().is_prefix_of(bytes) ==> bytes[0] == 0x47,
        crate::avatar_storage::riff_signature().is_prefix_of(bytes) ==> bytes[0] == 0x52,
        crate::avatar_storage::heic_signature().is_prefix_of(bytes) ==> bytes[0] == 0,
{
    if bytes.len() >= 8 {
        assert(bytes.subrange(0, 8)[0] == bytes[0]);
        assert(crate::avatar_storage::png_signature()[0] == 0x89);
    }
    if bytes.len() >= 4 {
        assert(bytes.subrange(0, 4)[0] == bytes[0]);
        assert(crate::avatar_storage::gif_signature()[0] == 0x47);
        assert(crate::avatar_storage::riff_signature()[0] == 0x52);
    }
    if bytes.len() >= 3 {
        assert(bytes.subrange(0, 3)[0] == bytes[0]);
        assert(crate::avatar_storage::jpeg_signature()[0] == 0xff);
        assert(crate::avatar_storage::heic_signature()[0] == 0);
    }
}

/// The picture's address is the external base address, the route of avatars and
/// the whole CID, one after the other.
pub proof fn law_picture_address_holds_the_whole_cid(
    base: &str,
    cid: &str,
    url: Option<String>,
)
    requires
        call_ensures(picture_url, (Some(base), cid), url),
    ensures
        url is Some,
        url->0@ == base@ + "/oauth/avatar/"@ + cid@,
        url->0@.len() == base@.len() + 14 + cid@.len(),
        url->0@.skip(base@.len() + 14int) == cid@,
{
    reveal_strlit("/oauth/avatar/");
    assert("/oauth/avatar/"@.len() == 14);
    assert(url->0@ =~= base@ + "/oauth/avatar/"@ + cid@);
    assert(url->0@.skip(base@.len() + 14int) =~= cid@);
}

/// Without an external base address there is no picture's address.
pub proof fn law_no_picture_without_a_base(cid: &str, url: Option<String>)
    requires
        call_ensures(picture_url, (None::<&str>, cid), url),
    ensures
        url is None,
{
}

/// Different avatars have different addresses.
pub proof fn law_picture_addresses_differ(
    base: &str,
    cid: &str,
    url: Option<String>,
    other_cid: &str,
    other_url: Option<String>,
)
    requires
        call_ensures(picture_url, (Some(base), cid), url),
        call_ensures(picture_url, (Some(base), other_cid), other_url),
        cid@ != other_cid@,
    ensures
        url is Some && other_url is Some,
        url->0@ != other_url->0@,
{
    law_picture_address_holds_the_whole_cid(base, cid, url);
    law_picture_address_holds_the_whole_cid(base, other_cid, other_url);
}

/// The configuration keys of the store differ.
proof fn lemma_keys_distinct()
    ensures
        "aws_region"@ != "aws_bucket"@,
        "aws_region"@ != "aws_access_key_id"@,
        "aws_region"@ != "aws_secret_access_key"@,
        "aws_region"@ != "aws_endpoint"@,
        "aws_region"@ != "allow_http"@,
        "aws_bucket"@ != "aws_access_key_id"@,
        "aws_bucket"@ != "aws_secret_access_key"@,
        "aws_bucket"@ != "aws_endpoint"@,
        "aws_bucket"@ != "allow_http"@,
        "aws_access_key_id"@ != "aws_secret_access_key"@,
        "aws_access_key_id"@ != "aws_endpoint"@,
        "aws_access_key_id"@ != "allow_http"@,
        "aws_secret_access_key"@ != "aws_endpoint"@,
        "aws_secret_access_key"@ != "allow_http"@,
        "aws_endpoint"@ != "allow_http"@,
{
    reveal_strlit("aws_region");
    reveal_strlit("aws_bucket");
    reveal_strlit("aws_access_key_id");
    reveal_strlit("aws_secret_access_key");
    reveal_strlit("aws_endpoint");
    reveal_strlit("allow_http");
    assert("aws_region"@.len() == 10 && "aws_bucket"@.len() == 10 && "allow_http"@.len() == 10);
    assert("aws_access_key_id"@.len() == 17 && "aws_secret_access_key"@.len() == 21);
    assert("aws_endpoint"@.len() == 12);
    assert("aws_region"@[4] != "aws_bucket"@[4]);
    assert("aws_region"@[1] != "allow_http"@[1]);
    assert("aws_bucket"@[1] != "allow_http"@[1]);
}

/// Whether these settings are those of these variables: each under its own key, the
/// region `garage` where none is set, plain HTTP allowed unless the endpoint begins
/// with `https`, and nothing else.
pub open spec fn reflects(settings: Map<Seq<char>, Seq<char>>, env: AvatarEnv) -> bool {
    let keys = set![
        "aws_endpoint"@,
        "aws_region"@,
        "aws_bucket"@,
        "aws_access_key_id"@,
        "aws_secret_access_key"@,
    ];
    let endpoint = env.endpoint->0@;
    let secure = endpoint.len() >= 5 && endpoint[0] == 'h' && endpoint[1] == 't' && endpoint[2]
        == 't' && endpoint[3] == 'p' && endpoint[4] == 's';
    &&& settings["aws_endpoint"@] == env.endpoint->0@
    &&& env.region is Some ==> settings["aws_region"@] == env.region->0@
    &&& env.region is None ==> settings["aws_region"@] == "garage"@
    &&& settings["aws_bucket"@] == env.bucket->0@
    &&& settings["aws_access_key_id"@] == env.access_key->0@
    &&& settings["aws_secret_access_key"@] == env.secret_key->0@
    &&& secure ==> settings.dom() == keys
    &&& !secure ==> settings.dom() == keys.insert("allow_http"@) && settings["allow_http"@]
        == "true"@
}

/// Whether the four variables without a default are set, each to some text.
pub open spec fn all_set(env: AvatarEnv) -> bool {
    &&& env.endpoint is Some && env.endpoint->0@.len() != 0
    &&& env.bucket is Some && env.bucket->0@.len() != 0
    &&& env.access_key is Some && env.access_key->0@.len() != 0
    &&& env.secret_key is Some && env.secret_key->0@.len() != 0
}

/// The configuration of an environment reflects its variables.
proof fn lemma_configuration_reflects(env: AvatarEnv)
    ensures
        reflects(env.configuration(), env),
{
    lemma_keys_distinct();
    reveal_strlit("https");
    let endpoint = env.endpoint->0@;
    let settings = env.configuration();
    let keys = set![
        "aws_endpoint"@,
        "aws_region"@,
        "aws_bucket"@,
        "aws_access_key_id"@,
        "aws_secret_access_key"@,
    ];
    assert("https"@.len() == 5);
    if endpoint.len() >= 5 {
        let leading = endpoint.subrange(0, 5);
        if endpoint[0] == 'h' && endpoint[1] == 't' && endpoint[2] == 't' && endpoint[3] == 'p'
            && endpoint[4] == 's' {
            assert(leading =~= "https"@);
        } else {
            assert(leading[0] == endpoint[0] && leading[1] == endpoint[1] && leading[2]
                == endpoint[2] && leading[3] == endpoint[3] && leading[4] == endpoint[4]);
            assert("https"@[0] == 'h' && "https"@[1] == 't' && "https"@[2] == 't' && "https"@[3]
                == 'p' && "https"@[4] == 's');
        }
    }
    if "https"@.is_prefix_of(endpoint) {
        assert(settings.dom() =~= keys);
    } else {
        assert(settings.dom() =~= keys.insert("allow_http"@));
    }
}

/// A store is configured exactly when all four variables without a default are set,
/// and then by what the variables say.
pub proof fn law_environment_configures_the_store(env: &AvatarEnv, r: Option<AmazonS3Builder>)
    requires
        call_ensures(AvatarEnv::builder, (env,), r),
    ensures
        r is Some <==> all_set(*env),
        r is Some ==> reflects(crate::store::builder_settings(r->0), *env),
{
    lemma_configuration_reflects(*env);
}

/// A store is built exactly when all four variables without a default are set, and
/// one that comes out was configured by what the variables say.
pub proof fn law_environment_builds_the_store(
    env: &AvatarEnv,
    r: Option<Result<AmazonS3, object_store::Error>>,
)
    requires
        call_ensures(AvatarEnv::build, (env,), r),
    ensures
        r is Some <==> all_set(*env),
        r is Some && r->0 is Ok ==> reflects(crate::store::store_settings(r->0->Ok_0), *env),
{
    lemma_configuration_reflects(*env);
}

/// There is avatar storage only where all four variables without a default are set,
/// and its store was configured by what the variables say.
pub proof fn law_environment_gives_the_storage(
    env: &AvatarEnv,
    r: Option<AvatarStorage>,
    store: &AmazonS3,
)
    requires
        call_ensures(AvatarStorage::from_env, (env,), r),
    ensures
        r is Some ==> all_set(*env),
        r is Some && call_ensures(AvatarStorage::store, (&r->0,), store) ==> reflects(
            crate::store::store_settings(*store),
            *env,
        ),
{
    lemma_configuration_reflects(*env);
}

/// There is avatar storage exactly where a store was built, and in that store.
pub proof fn law_storage_is_in_the_store_that_was_built(
    built: Result<AmazonS3, object_store::Error>,
    r: Option<AvatarStorage>,
    store: &AmazonS3,
)
    requires
        call_ensures(AvatarStorage::from_built, (built,), r),
    ensures
        r is Some <==> built is Ok,
        r is Some && call_ensures(AvatarStorage::store, (&r->0,), store) ==> *store
            == built->Ok_0,
{
}

/// A clone of the storage is in the same store.
pub proof fn law_clone_is_in_the_same_store(
    storage: &AvatarStorage,
    clone: AvatarStorage,
    store: &AmazonS3,
    clone_store: &AmazonS3,
)
    requires
        call_ensures(AvatarStorage::clone, (storage,), clone),
        call_ensures(AvatarStorage::store, (storage,), store),
        call_ensures(AvatarStorage::store, (&clone,), clone_store),
    ensures
        crate::store::store_settings(*clone_store) == crate::store::store_settings(*store),
{
}

/// An upload sends all of the given bytes, with that content type and no other
/// attribute or tag, and overwrites what is in its place.
pub proof fn law_upload_sends_what_it_is_given(
    storage: &AvatarStorage,
    cid: &str,
    bytes: &[u8],
    content_type: &str,
    request: PutRequest,
)
    requires
        call_ensures(AvatarStorage::put, (storage, cid, bytes, content_type), request),
    ensures
        crate::store::payload_bytes(request.payload) == bytes@,
        crate::store::option_attributes(request.options).dom() == set!["content-type"@],
        crate::store::option_attributes(request.options)["content-type"@] == content_type@,
        crate::store::option_tags(request.options).len() == 0,
        crate::store::option_overwrites(request.options),
{
    assert(crate::store::option_attributes(request.options).dom() =~= set!["content-type"@]);
}

/// An avatar is put under its whole CID, where that is made of letters, digits, `-`
/// and `_`.
pub proof fn law_avatar_is_put_under_its_cid(
    storage: &AvatarStorage,
    cid: &str,
    bytes: &[u8],
    content_type: &str,
    request: PutRequest,
)
    requires
        call_ensures(AvatarStorage::put, (storage, cid, bytes, content_type), request),
        forall|i: int|
            0 <= i < cid@.len() ==> ('a' <= #[trigger] cid@[i] <= 'z') || ('A' <= cid@[i] <= 'Z')
                || ('0' <= cid@[i] <= '9') || cid@[i] == '-' || cid@[i] == '_',
    ensures
        crate::store::path_text(request.location) == cid@,
{
}

/// An avatar is looked for, when it is served, where it was put: by any storage,
/// whatever its bytes and its content type, and whatever its CID is made of.
pub proof fn law_avatar_is_served_from_where_it_was_put(
    storage: &AvatarStorage,
    cid: &str,
    bytes: &[u8],
    content_type: &str,
    request: PutRequest,
    serving: &Option<AvatarStorage>,
    r: Result<Path, ErrorReply>,
    reading: &AvatarStorage,
    location: Path,
)
    requires
        call_ensures(AvatarStorage::put, (storage, cid, bytes, content_type), request),
        call_ensures(handle_avatar, (serving, cid), r),
        call_ensures(AvatarStorage::get, (reading, cid), location),
    ensures
        crate::store::path_text(location) == crate::store::path_text(request.location),
        r is Ok ==> crate::store::path_text(r->Ok_0) == crate::store::path_text(request.location),
{
}

/// An upload fails exactly when the write does, and says why.
pub proof fn law_upload_fails_as_the_write_does(
    written: Result<(), String>,
    r: Result<(), String>,
)
    requires
        call_ensures(put_outcome, (written,), r),
    ensures
        r is Ok <==> written is Ok,
        r is Err ==> r->Err_0@ == "avatar storage put failed: "@ + written->Err_0@,
{
}

/// A download gives all of the bytes that were read to the end, and no others; it
/// says whether the object was refused or broke off, and why.
pub proof fn law_download_gives_whole_objects(download: Download, r: Result<Vec<u8>, String>)
    requires
        call_ensures(get_outcome, (download,), r),
    ensures
        r is Ok <==> download is Whole,
        r is Ok ==> r->Ok_0@ == download->Whole_0@,
        download matches Download::Refused(cause) ==> r->Err_0@ == "avatar storage get failed: "@
            + cause@,
        download matches Download::BrokenOff(cause) ==> r->Err_0@
            == "avatar storage get stream failed: "@ + cause@,
{
}

/// Each message about a store's fault ends in the whole of its cause.
pub proof fn law_messages_hold_their_cause(
    cause: &str,
    put: String,
    get: String,
    get_stream: String,
)
    requires
        call_ensures(put_failure, (cause,), put),
        call_ensures(get_failure, (cause,), get),
        call_ensures(get_stream_failure, (cause,), get_stream),
    ensures
        put@ == "avatar storage put failed: "@ + cause@,
        get@ == "avatar storage get failed: "@ + cause@,
        get_stream@ == "avatar storage get stream failed: "@ + cause@,
{
}

/// Without storage every avatar is not found; with it every avatar is looked for.
pub proof fn law_no_avatar_without_storage(
    storage: &Option<AvatarStorage>,
    cid: &str,
    r: Result<Path, ErrorReply>,
)
    requires
        call_ensures(handle_avatar, (storage, cid), r),
    ensures
        r is Ok <==> *storage is Some,
        r is Err ==> crate::introspection_laws::says(
            r->Err_0,
            404,
            "not_found"@,
            "avatar storage not configured"@,
        ),
{
    crate::introspection_laws::lemma_error_names_distinct();
    if let Err(reply) = r {
        assert(crate::json::object_members(reply.body).dom() =~= set![
            "error"@,
            "error_description"@,
        ]);
    }
}

/// An avatar that could not be fetched is not found; one that was is served whole.
pub proof fn law_fetched_avatar_is_served_whole(
    fetched: Result<Vec<u8>, String>,
    r: Result<AvatarReply, ErrorReply>,
)
    requires
        call_ensures(avatar_reply, (fetched,), r),
    ensures
        r is Ok <==> fetched is Ok,
        r is Ok ==> r->Ok_0.status == 200 && r->Ok_0.body@ == fetched->Ok_0@,
        r is Err ==> crate::introspection_laws::says(
            r->Err_0,
            404,
            "not_found"@,
            "avatar not found"@,
        ),
{
    crate::introspection_laws::lemma_error_names_distinct();
    if let Err(reply) = r {
        assert(crate::json::object_members(reply.body).dom() =~= set![
            "error"@,
            "error_description"@,
        ]);
    }
}

/// A served avatar has two headers: the content type that its bytes are sniffed to
/// have, and the leave to cache it for a year, for it never changes.
pub proof fn law_served_avatar_has_its_type_and_is_immutable(
    fetched: Result<Vec<u8>, String>,
    reply: AvatarReply,
    bytes: &[u8],
    content_type: &'static str,
)
    requires
        call_ensures(avatar_reply, (fetched,), Ok(reply)),
        call_ensures(sniff_image_content_type, (bytes,), content_type),
        bytes@ == fetched->Ok_0@,
    ensures
        ({
            let headers = crate::headers::header_values(reply.headers);
            &&& headers.dom() == set!["content-type"@, "cache-control"@]
            &&& headers["content-type"@] == seq![vstd::utf8::encode_utf8(content_type@)]
            &&& headers["cache-control"@] == seq![vstd::utf8::encode_utf8(
                "public, max-age=31536000, immutable"@,
            )]
        }),
{
    reveal_strlit("content-type");
    reveal_strlit("cache-control");
    assert("content-type"@.len() == 12 && "cache-control"@.len() == 13);
    assert(crate::headers::header_values(reply.headers).dom() =~= set![
        "content-type"@,
        "cache-control"@,
    ]);
}

} // verus!
