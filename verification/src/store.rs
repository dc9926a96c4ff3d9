//! The S3-compatible object store behind `object_store`: its configuration, and
//! what an upload is made of.

use bytes::Bytes;
use object_store::aws::{AmazonS3, AmazonS3Builder};
use object_store::path::Path;
use object_store::{Attribute, Attributes, PutOptions, PutPayload};
use vstd::prelude::*;

verus! {

/// `object_store::aws::AmazonS3Builder`, opaque here.
#[verifier::external_type_specification]
#[verifier::external_body]
pub struct ExAmazonS3Builder(object_store::aws::AmazonS3Builder);

/// `object_store::aws::AmazonS3`, opaque here.
#[verifier::external_type_specification]
#[verifier::external_body]
pub struct ExAmazonS3(object_store::aws::AmazonS3);

/// `object_store::Error`, opaque here.
#[verifier::external_type_specification]
#[verifier::external_body]
pub struct ExStoreError(object_store::Error);

/// `object_store::path::Path`, opaque here.
#[verifier::external_type_specification]
#[verifier::external_body]
pub struct ExStorePath(object_store::path::Path);

/// `object_store::PutPayload`, opaque here.
#[verifier::external_type_specification]
#[verifier::external_body]
pub struct ExPutPayload(object_store::PutPayload);

/// `object_store::Attributes`, opaque here.
#[verifier::external_type_specification]
#[verifier::external_body]
pub struct ExAttributes(object_store::Attributes);

/// `object_store::PutOptions`, opaque here.
#[verifier::external_type_specification]
#[verifier::external_body]
pub struct ExPutOptions(object_store::PutOptions);

/// What has been set on a builder, by configuration key (by field where it has
/// none), as far as it differs from what `AmazonS3Builder::new` starts with.
pub uninterp spec fn builder_settings(builder: AmazonS3Builder) -> Map<Seq<char>, Seq<char>>;

/// What was set on the builder that a store was built by.
pub uninterp spec fn store_settings(store: AmazonS3) -> Map<Seq<char>, Seq<char>>;

/// The characters of a path in the store.
pub uninterp spec fn path_text(path: Path) -> Seq<char>;

/// The characters of the path that `Path::from` makes of a text.
pub uninterp spec fn encoded_path(text: Seq<char>) -> Seq<char>;

/// The bytes of a payload, in order.
pub uninterp spec fn payload_bytes(payload: PutPayload) -> Seq<u8>;

/// The attributes of an object, by the name of the HTTP header that carries each.
pub uninterp spec fn attribute_values(attributes: Attributes) -> Map<Seq<char>, Seq<char>>;

/// The attributes that an upload with these options gives its object, by the name
/// of the HTTP header that carries each.
pub uninterp spec fn option_attributes(options: PutOptions) -> Map<Seq<char>, Seq<char>>;

/// The tags that an upload with these options gives its object, as they are
/// encoded.
pub uninterp spec fn option_tags(options: PutOptions) -> Seq<char>;

/// Whether an upload with these options overwrites the object that is in its
/// place, whatever that is.
pub uninterp spec fn option_overwrites(options: PutOptions) -> bool;

/// Nothing set.
pub open spec fn no_settings() -> Map<Seq<char>, Seq<char>> {
    Map::empty()
}

/// Whether a text consists of ASCII letters, digits, `-` and `_` alone, as a CID
/// does.
pub open spec fn is_plain(text: Seq<char>) -> bool {
    forall|i: int|
        0 <= i < text.len() ==> {
            ||| 'a' <= #[trigger] text[i] <= 'z'
            ||| 'A' <= text[i] <= 'Z'
            ||| '0' <= text[i] <= '9'
            ||| text[i] == '-'
            ||| text[i] == '_'
        }
}

/// Calls `AmazonS3Builder::new`: nothing is set.
#[verifier::external_body]
pub(crate) fn new_builder() -> (builder: AmazonS3Builder)
    ensures
        builder_settings(builder) == no_settings(),
{
    AmazonS3Builder::new()
}

/// Calls `AmazonS3Builder::with_region`, which sets the region and nothing else.
#[verifier::external_body]
pub(crate) fn with_region(builder: AmazonS3Builder, region: &str) -> (r: AmazonS3Builder)
    ensures
        builder_settings(r) == builder_settings(builder).insert("aws_region"@, region@),
{
    builder.with_region(region)
}

/// Calls `AmazonS3Builder::with_bucket_name`, which sets the bucket and nothing
/// else.
#[verifier::external_body]
pub(crate) fn with_bucket_name(builder: AmazonS3Builder, bucket: &str) -> (r: AmazonS3Builder)
    ensures
        builder_settings(r) == builder_settings(builder).insert("aws_bucket"@, bucket@),
{
    builder.with_bucket_name(bucket)
}

/// Calls `AmazonS3Builder::with_access_key_id`, which sets the access key and
/// nothing else.
#[verifier::external_body]
pub(crate) fn with_access_key_id(builder: AmazonS3Builder, key: &str) -> (r: AmazonS3Builder)
    ensures
        builder_settings(r) == builder_settings(builder).insert("aws_access_key_id"@, key@),
{
    builder.with_access_key_id(key)
}

/// Calls `AmazonS3Builder::with_secret_access_key`, which sets the secret key and
/// nothing else.
#[verifier::external_body]
pub(crate) fn with_secret_access_key(builder: AmazonS3Builder, key: &str) -> (r: AmazonS3Builder)
    ensures
        builder_settings(r) == builder_settings(builder).insert("aws_secret_access_key"@, key@),
{
    builder.with_secret_access_key(key)
}

/// Calls `AmazonS3Builder::with_endpoint`, which sets the endpoint and nothing
/// else.
#[verifier::external_body]
pub(crate) fn with_endpoint(builder: AmazonS3Builder, endpoint: &str) -> (r: AmazonS3Builder)
    ensures
        builder_settings(r) == builder_settings(builder).insert("aws_endpoint"@, endpoint@),
{
    builder.with_endpoint(endpoint)
}

/// Calls `AmazonS3Builder::with_allow_http`, which says whether plain HTTP is
/// allowed (it is not unless this says so) and sets nothing else.
#[verifier::external_body]
pub(crate) fn with_allow_http(builder: AmazonS3Builder, allow: bool) -> (r: AmazonS3Builder)
    ensures
        builder_settings(r) == if allow {
            builder_settings(builder).insert("allow_http"@, "true"@)
        } else {
            builder_settings(builder).remove("allow_http"@)
        },
{
    builder.with_allow_http(allow)
}

/// The settings that a store of this library is built from: all of these, and
/// besides them at most the permission to use plain HTTP.
pub open spec fn is_full_configuration(settings: Map<Seq<char>, Seq<char>>) -> bool {
    settings.dom().remove("allow_http"@) == set![
        "aws_region"@,
        "aws_bucket"@,
        "aws_access_key_id"@,
        "aws_secret_access_key"@,
        "aws_endpoint"@,
    ]
}

/// Calls `AmazonS3Builder::build`. A store that comes out was built from what was
/// set on the builder. Whether one comes out is left unsaid: it rests on the HTTP
/// client that the machine can offer.
#[verifier::external_body]
pub(crate) fn build_store(builder: AmazonS3Builder) -> (built: Result<AmazonS3, object_store::Error>)
    requires
        is_full_configuration(builder_settings(builder)),
    ensures
        built matches Ok(store) ==> store_settings(store) == builder_settings(builder),
{
    builder.build()
}

/// `AmazonS3::clone`: a clone is a handle to the same store.
pub assume_specification[ <AmazonS3 as Clone>::clone ](store: &AmazonS3) -> (r: AmazonS3)
    ensures
        store_settings(r) == store_settings(*store),
;

/// Calls `Path::from`, which percent-encodes what the store could misread. A text
/// that [`is_plain`] stays as it is; what becomes of any other is left to
/// [`encoded_path`].
#[verifier::external_body]
pub(crate) fn path_from(text: &str) -> (path: Path)
    ensures
        path_text(path) == encoded_path(text@),
        is_plain(text@) ==> path_text(path) == text@,
{
    Path::from(text)
}

/// Calls `PutPayload::from_bytes`: the payload is the given bytes.
#[verifier::external_body]
pub(crate) fn payload_from(bytes: &[u8]) -> (payload: PutPayload)
    ensures
        payload_bytes(payload) == bytes@,
{
    PutPayload::from_bytes(Bytes::from(bytes.to_vec()))
}

/// Calls `Attributes::new`, which makes a collection without attributes.
#[verifier::external_body]
pub(crate) fn new_attributes() -> (attributes: Attributes)
    ensures
        attribute_values(attributes) == no_settings(),
{
    Attributes::new()
}

/// Calls `Attributes::insert` for `Attribute::ContentType`: the content type is
/// then the given one, and no other attribute changes.
#[verifier::external_body]
pub(crate) fn insert_content_type(attributes: &mut Attributes, content_type: &str)
    ensures
        attribute_values(*final(attributes)) == attribute_values(*old(attributes)).insert(
            "content-type"@,
            content_type@,
        ),
{
    attributes.insert(Attribute::ContentType, content_type.to_string().into());
}

/// Calls `PutOptions::from`: the options have the given attributes and are
/// otherwise the default ones, which overwrite (`PutMode::Overwrite`) and set no
/// tags.
#[verifier::external_body]
pub(crate) fn options_from(attributes: Attributes) -> (options: PutOptions)
    ensures
        option_attributes(options) == attribute_values(attributes),
        option_tags(options).len() == 0,
        option_overwrites(options),
{
    PutOptions::from(attributes)
}

} // verus!
