//! Avatar blob storage in an S3-compatible store.
//!
//! A user's profile avatar is mirrored into the store under the CID of its blob,
//! and served from here: the store has no anonymous reads. The store is
//! configured by environment variables; without them there is no avatar storage.

use object_store::aws::{AmazonS3, AmazonS3Builder};
use object_store::path::Path;
use object_store::{PutOptions, PutPayload};
use vstd::prelude::*;

use crate::store::{
    build_store, insert_content_type, new_attributes, new_builder, options_from, path_from,
    payload_from, with_access_key_id, with_allow_http, with_bucket_name, with_endpoint, with_region,
    with_secret_access_key,
};
use crate::text::{bytes_start_with, text_starts_with};

verus! {

/// The environment variables that configure the store; `None` for one that is not
/// set or not Unicode.
#[derive(Debug)]
pub struct AvatarEnv {
    /// `AVATAR_STORAGE_ENDPOINT`.
    pub endpoint: Option<String>,
    /// `AVATAR_STORAGE_REGION`.
    pub region: Option<String>,
    /// `AVATAR_STORAGE_BUCKET`.
    pub bucket: Option<String>,
    /// `AVATAR_STORAGE_ACCESS_KEY`.
    pub access_key: Option<String>,
    /// `AVATAR_STORAGE_SECRET_KEY`.
    pub secret_key: Option<String>,
}

/// Whether a variable is set, and not to the empty text.
pub open spec fn is_given(variable: Option<String>) -> bool {
    variable matches Some(text) && text@.len() > 0
}

impl AvatarEnv {
    /// Whether every variable without a default is given.
    pub open spec fn is_complete(self) -> bool {
        &&& is_given(self.endpoint)
        &&& is_given(self.bucket)
        &&& is_given(self.access_key)
        &&& is_given(self.secret_key)
    }

    /// The region: `garage` unless the environment says otherwise.
    pub open spec fn region_or_default(self) -> Seq<char> {
        match self.region {
            Some(region) => region@,
            None => "garage"@,
        }
    }

    /// What these variables configure, by the store's configuration keys. Plain
    /// HTTP is allowed unless the endpoint begins with `https`.
    pub open spec fn configuration(self) -> Map<Seq<char>, Seq<char>> {
        let always = map![
            "aws_region"@ => self.region_or_default(),
            "aws_bucket"@ => self.bucket->0@,
            "aws_access_key_id"@ => self.access_key->0@,
            "aws_secret_access_key"@ => self.secret_key->0@,
            "aws_endpoint"@ => self.endpoint->0@,
        ];
        if "https"@.is_prefix_of(self.endpoint->0@) {
            always
        } else {
            always.insert("allow_http"@, "true"@)
        }
    }

    /// The configured store builder; `None` when not fully configured.
    pub fn builder(&self) -> (r: Option<AmazonS3Builder>)
        ensures
            r is Some <==> self.is_complete(),
            r matches Some(builder) ==> crate::store::builder_settings(builder)
                == self.configuration(),
    {
        let endpoint = match &self.endpoint {
            Some(endpoint) => endpoint.as_str(),
            None => return None,
        };
        let region = match &self.region {
            Some(region) => region.as_str(),
            None => "garage",
        };
        let bucket = match &self.bucket {
            Some(bucket) => bucket.as_str(),
            None => return None,
        };
        let access_key = match &self.access_key {
            Some(access_key) => access_key.as_str(),
            None => return None,
        };
        let secret_key = match &self.secret_key {
            Some(secret_key) => secret_key.as_str(),
            None => return None,
        };
        if endpoint.is_empty() || bucket.is_empty() || access_key.is_empty()
            || secret_key.is_empty() {
            return None;
        }
        let mut builder = new_builder();
        builder = with_region(builder, region);
        builder = with_bucket_name(builder, bucket);
        builder = with_access_key_id(builder, access_key);
        builder = with_secret_access_key(builder, secret_key);
        builder = with_endpoint(builder, endpoint);
        if !text_starts_with(endpoint, "https") {
            builder = with_allow_http(builder, true);
        }
        Some(builder)
    }

    /// The store that these variables configure, or why none could be built;
    /// `None` when not fully configured.
    pub fn build(&self) -> (r: Option<Result<AmazonS3, object_store::Error>>)
        ensures
            r is Some <==> self.is_complete(),
            r matches Some(Ok(store)) ==> crate::store::store_settings(store)
                == self.configuration(),
    {
        match self.builder() {
            Some(builder) => {
                proof {
                    lemma_configuration_is_full(*self);
                }
                Some(build_store(builder))
            },
            None => None,
        }
    }
}

/// S3-compatible avatar storage handle.
pub struct AvatarStorage {
    store: AmazonS3,
}

impl Clone for AvatarStorage {
    fn clone(&self) -> (r: AvatarStorage)
        ensures
            r.configuration() == self.configuration(),
    {
        AvatarStorage { store: self.store.clone() }
    }
}

/// Whether the blob with that CID has its place there: under its CID, encoded
/// where the store could misread it.
pub open spec fn is_location_of(location: Path, cid: Seq<char>) -> bool {
    &&& crate::store::path_text(location) == crate::store::encoded_path(cid)
    &&& crate::store::is_plain(cid) ==> crate::store::path_text(location) == cid
}

/// An upload, ready to be sent to the store.
pub struct PutRequest {
    /// Where the object goes.
    pub location: Path,
    /// What the object holds.
    pub payload: PutPayload,
    /// How the object is written, and what is recorded beside it.
    pub options: PutOptions,
}

impl PutRequest {
    /// The path that the object is stored under.
    pub open spec fn key(self) -> Seq<char> {
        crate::store::path_text(self.location)
    }

    /// The bytes of the object.
    pub open spec fn bytes(self) -> Seq<u8> {
        crate::store::payload_bytes(self.payload)
    }

    /// The attributes of the object.
    pub open spec fn recorded(self) -> Map<Seq<char>, Seq<char>> {
        crate::store::option_attributes(self.options)
    }

    /// The tags of the object, as they are encoded.
    pub open spec fn tags(self) -> Seq<char> {
        crate::store::option_tags(self.options)
    }

    /// Whether this overwrites the object that is in its place.
    pub open spec fn overwrites(self) -> bool {
        crate::store::option_overwrites(self.options)
    }

    /// Whether this stores `bytes` as the blob with that CID, overwriting what is
    /// there, and records nothing but that content type.
    pub open spec fn stores(self, cid: Seq<char>, bytes: Seq<u8>, content_type: Seq<char>) -> bool {
        &&& is_location_of(self.location, cid)
        &&& self.bytes() == bytes
        &&& self.recorded() == map!["content-type"@ => content_type]
        &&& self.tags().len() == 0
        &&& self.overwrites()
    }
}

impl AvatarStorage {
    /// The store that avatars are kept in.
    pub closed spec fn backing(self) -> AmazonS3 {
        self.store
    }

    /// What the store was configured with, by configuration key.
    pub open spec fn configuration(self) -> Map<Seq<char>, Seq<char>> {
        crate::store::store_settings(self.backing())
    }

    /// Builds the storage from the environment; `None` when not fully configured,
    /// and when no store could be built.
    pub fn from_env(env: &AvatarEnv) -> (r: Option<AvatarStorage>)
        ensures
            !env.is_complete() ==> r is None,
            r matches Some(storage) ==> storage.configuration() == env.configuration(),
    {
        match env.build() {
            Some(built) => AvatarStorage::from_built(built),
            None => None,
        }
    }

    /// The storage in a store that was built; `None` if none could be.
    pub fn from_built(built: Result<AmazonS3, object_store::Error>) -> (r: Option<AvatarStorage>)
        ensures
            r is Some <==> built is Ok,
            r matches Some(storage) ==> built == Ok::<AmazonS3, object_store::Error>(
                storage.backing(),
            ),
    {
        match built {
            Ok(store) => Some(AvatarStorage { store }),
            Err(_) => None,
        }
    }

    /// The store that uploads and downloads go to.
    pub fn store(&self) -> (store: &AmazonS3)
        ensures
            *store == self.backing(),
    {
        &self.store
    }

    /// The upload of an avatar. Objects are keyed by their blob CID, so uploading
    /// the same avatar again overwrites it with identical bytes.
    pub fn put(&self, cid: &str, bytes: &[u8], content_type: &str) -> (request: PutRequest)
        ensures
            request.stores(cid@, bytes@, content_type@),
    {
        let mut attributes = new_attributes();
        insert_content_type(&mut attributes, content_type);
        PutRequest {
            location: path_from(cid),
            payload: payload_from(bytes),
            options: options_from(attributes),
        }
    }

    /// Where an avatar is fetched from.
    pub fn get(&self, cid: &str) -> (location: Path)
        ensures
            is_location_of(location, cid@),
    {
        path_from(cid)
    }
}

/// A complete environment configures all that a store needs, and plain HTTP only
/// where the endpoint does not begin with `https`.
pub(crate) proof fn lemma_configuration_is_full(env: AvatarEnv)
    ensures
        crate::store::is_full_configuration(env.configuration()),
        env.configuration().contains_key("allow_http"@) <==> !"https"@.is_prefix_of(
            env.endpoint->0@,
        ),
{
    reveal_strlit("allow_http");
    reveal_strlit("aws_region");
    reveal_strlit("aws_bucket");
    reveal_strlit("aws_access_key_id");
    reveal_strlit("aws_secret_access_key");
    reveal_strlit("aws_endpoint");
    assert("allow_http"@[1] != "aws_region"@[1]);
    assert("allow_http"@[1] != "aws_bucket"@[1]);
    assert("allow_http"@[1] != "aws_access_key_id"@[1]);
    assert("allow_http"@[1] != "aws_secret_access_key"@[1]);
    assert("allow_http"@[1] != "aws_endpoint"@[1]);
    assert(env.configuration().dom().remove("allow_http"@) =~= set![
        "aws_region"@,
        "aws_bucket"@,
        "aws_access_key_id"@,
        "aws_secret_access_key"@,
        "aws_endpoint"@,
    ]);
}

/// The message about an upload that the store did not take, given its complaint.
pub fn put_failure(cause: &str) -> (message: String)
    ensures
        message@ == "avatar storage put failed: "@ + cause@,
{
    "avatar storage put failed: ".to_owned().concat(cause)
}

/// The message about an object that the store did not hand out, given its
/// complaint.
pub fn get_failure(cause: &str) -> (message: String)
    ensures
        message@ == "avatar storage get failed: "@ + cause@,
{
    "avatar storage get failed: ".to_owned().concat(cause)
}

/// The message about an object whose bytes broke off, given the store's complaint.
pub fn get_stream_failure(cause: &str) -> (message: String)
    ensures
        message@ == "avatar storage get stream failed: "@ + cause@,
{
    "avatar storage get stream failed: ".to_owned().concat(cause)
}

/// What an upload comes to, given what the store said to the write: it fails
/// exactly when the write does.
pub fn put_outcome(written: Result<(), String>) -> (r: Result<(), String>)
    ensures
        r is Ok <==> written is Ok,
        written matches Err(cause) ==> r->Err_0@ == "avatar storage put failed: "@ + cause@,
{
    match written {
        Ok(()) => Ok(()),
        Err(cause) => Err(put_failure(cause.as_str())),
    }
}

/// How far the store went with a download.
#[derive(Debug)]
pub enum Download {
    /// The store did not hand the object out, for this cause.
    Refused(String),
    /// The object's bytes broke off, for this cause.
    BrokenOff(String),
    /// The object was read to its end.
    Whole(Vec<u8>),
}

/// What a download comes to: all of the object's bytes, or a message that tells the
/// two ways to fail apart.
pub fn get_outcome(download: Download) -> (r: Result<Vec<u8>, String>)
    ensures
        match download {
            Download::Refused(cause) => r matches Err(message) && message@
                == "avatar storage get failed: "@ + cause@,
            Download::BrokenOff(cause) => r matches Err(message) && message@
                == "avatar storage get stream failed: "@ + cause@,
            Download::Whole(bytes) => r == Ok::<Vec<u8>, String>(bytes),
        },
{
    match download {
        Download::Refused(cause) => Err(get_failure(cause.as_str())),
        Download::BrokenOff(cause) => Err(get_stream_failure(cause.as_str())),
        Download::Whole(bytes) => Ok(bytes),
    }
}

/// The eight bytes that a PNG file begins with.
pub open spec fn png_signature() -> Seq<u8> {
    seq![0x89, 0x50, 0x4e, 0x47, 0x0d, 0x0a, 0x1a, 0x0a]
}

/// The three bytes that a JPEG file begins with.
pub open spec fn jpeg_signature() -> Seq<u8> {
    seq![0xff, 0xd8, 0xff]
}

/// The four bytes that a GIF file begins with: `GIF8`.
pub open spec fn gif_signature() -> Seq<u8> {
    seq![0x47, 0x49, 0x46, 0x38]
}

/// The four bytes that a RIFF container begins with: `RIFF`.
pub open spec fn riff_signature() -> Seq<u8> {
    seq![0x52, 0x49, 0x46, 0x46]
}

/// The four bytes that mark a RIFF container as a WebP file: `WEBP`.
pub open spec fn webp_mark() -> Seq<u8> {
    seq![0x57, 0x45, 0x42, 0x50]
}

/// The three bytes that a HEIC file is taken to begin with.
pub open spec fn heic_signature() -> Seq<u8> {
    seq![0, 0, 0]
}

/// Whether the bytes begin as a WebP file does: `RIFF`, four bytes of length,
/// `WEBP`.
pub open spec fn is_webp(bytes: Seq<u8>) -> bool {
    &&& bytes.len() >= 12
    &&& riff_signature().is_prefix_of(bytes)
    &&& bytes.subrange(8, 12) == webp_mark()
}

/// The content type that the leading bytes speak for.
pub open spec fn image_content_type(bytes: Seq<u8>) -> Seq<char> {
    if png_signature().is_prefix_of(bytes) {
        "image/png"@
    } else if jpeg_signature().is_prefix_of(bytes) {
        "image/jpeg"@
    } else if gif_signature().is_prefix_of(bytes) {
        "image/gif"@
    } else if is_webp(bytes) {
        "image/webp"@
    } else if heic_signature().is_prefix_of(bytes) {
        "image/heic"@
    } else {
        "application/octet-stream"@
    }
}

/// Best-effort content type for avatar blobs (all common avatar formats), sniffed
/// from the leading bytes.
pub fn sniff_image_content_type(bytes: &[u8]) -> (content_type: &'static str)
    ensures
        content_type@ == image_content_type(bytes@),
{
    let png: [u8; 8] = [0x89, 0x50, 0x4e, 0x47, 0x0d, 0x0a, 0x1a, 0x0a];
    let jpeg: [u8; 3] = [0xff, 0xd8, 0xff];
    let gif: [u8; 4] = [0x47, 0x49, 0x46, 0x38];
    let riff: [u8; 4] = [0x52, 0x49, 0x46, 0x46];
    let webp: [u8; 4] = [0x57, 0x45, 0x42, 0x50];
    let heic: [u8; 3] = [0, 0, 0];
    proof {
        assert(png@ =~= png_signature());
        assert(jpeg@ =~= jpeg_signature());
        assert(gif@ =~= gif_signature());
        assert(riff@ =~= riff_signature());
        assert(webp@ =~= webp_mark());
        assert(heic@ =~= heic_signature());
        if bytes@.len() >= 12 {
            let mark = bytes@.subrange(8, 12);
            assert(mark =~= mark.subrange(0, 4));
        }
    }
    if bytes_start_with(bytes, &png) {
        "image/png"
    } else if bytes_start_with(bytes, &jpeg) {
        "image/jpeg"
    } else if bytes_start_with(bytes, &gif) {
        "image/gif"
    } else if bytes.len() >= 12 && bytes_start_with(bytes, &riff) && bytes_start_with(
        &bytes[8..12],
        &webp,
    ) {
        "image/webp"
    } else if bytes_start_with(bytes, &heic) {
        "image/heic"
    } else {
        "application/octet-stream"
    }
}

/// The path under the external base address that avatars are served at.
pub open spec fn avatar_route(cid: Seq<char>) -> Seq<char> {
    "/oauth/avatar/"@ + cid
}

/// The address that an avatar is served at, given the external base address;
/// `None` when there is none.
pub fn picture_url(external_base: Option<&str>, cid: &str) -> (url: Option<String>)
    ensures
        url is Some <==> external_base is Some,
        url matches Some(url) ==> url@ == external_base->0@ + avatar_route(cid@),
{
    match external_base {
        Some(external_base) => Some(
            external_base.to_owned().concat("/oauth/avatar/").concat(cid),
        ),
        None => None,
    }
}

} // verus!
