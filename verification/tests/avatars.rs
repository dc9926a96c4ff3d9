use aip_oidc::avatar::{avatar_reply, handle_avatar};
use aip_oidc::avatar_storage::{
    get_failure, get_outcome, get_stream_failure, picture_url, put_failure, put_outcome,
    sniff_image_content_type, AvatarEnv, AvatarStorage, Download,
};
use object_store::aws::{AmazonS3ConfigKey, AmazonS3Builder};
use object_store::memory::InMemory;
use object_store::{Attribute, ClientConfigKey, ObjectStore, PutMode, PutPayload};
use serde_json::Value;
use std::future::Future;
use std::task::{Context, Poll, Waker};

const CID: &str = "bafkreihdwdcefgh4dqkjv67uzcmw7ojee6xedzdetojuzjevtenxquvyku";

fn env() -> AvatarEnv {
    AvatarEnv {
        endpoint: Some("http://10.0.0.11:3900".to_string()),
        region: None,
        bucket: Some("aip-avatars".to_string()),
        access_key: Some("key".to_string()),
        secret_key: Some("secret".to_string()),
    }
}

fn storage() -> AvatarStorage {
    match AvatarStorage::from_env(&env()) {
        Some(storage) => storage,
        None => panic!("no store could be built"),
    }
}

fn setting(builder: &AmazonS3Builder, key: AmazonS3ConfigKey) -> Option<String> {
    builder.get_config_value(&key)
}

/// The result of a future that never waits.
fn ready<F: Future>(future: F) -> F::Output {
    let mut future = Box::pin(future);
    match future.as_mut().poll(&mut Context::from_waker(Waker::noop())) {
        Poll::Ready(output) => output,
        Poll::Pending => panic!("the future waits"),
    }
}

#[test]
fn environment_configures_the_store() {
    let builder = env().builder().unwrap();
    assert_eq!(setting(&builder, AmazonS3ConfigKey::Endpoint).unwrap(), "http://10.0.0.11:3900");
    assert_eq!(setting(&builder, AmazonS3ConfigKey::Region).unwrap(), "garage");
    assert_eq!(setting(&builder, AmazonS3ConfigKey::Bucket).unwrap(), "aip-avatars");
    assert_eq!(setting(&builder, AmazonS3ConfigKey::AccessKeyId).unwrap(), "key");
    assert_eq!(setting(&builder, AmazonS3ConfigKey::SecretAccessKey).unwrap(), "secret");
    let allow_http = AmazonS3ConfigKey::Client(ClientConfigKey::AllowHttp);
    assert_eq!(setting(&builder, allow_http).unwrap(), "true");
}

#[test]
fn https_endpoint_forbids_plain_http() {
    let mut env = env();
    env.endpoint = Some("https://s3.example.com".to_string());
    env.region = Some("".to_string());
    let builder = env.builder().unwrap();
    let allow_http = AmazonS3ConfigKey::Client(ClientConfigKey::AllowHttp);
    assert_eq!(setting(&builder, allow_http).unwrap(), "false");
    assert_eq!(setting(&builder, AmazonS3ConfigKey::Region).unwrap(), "");
}

#[test]
fn incomplete_environment_means_no_storage() {
    let breakers: [fn(&mut AvatarEnv); 8] = [
        |e| e.endpoint = None,
        |e| e.endpoint = Some(String::new()),
        |e| e.bucket = None,
        |e| e.bucket = Some(String::new()),
        |e| e.access_key = None,
        |e| e.access_key = Some(String::new()),
        |e| e.secret_key = None,
        |e| e.secret_key = Some(String::new()),
    ];
    for spoil in breakers {
        let mut env = env();
        spoil(&mut env);
        assert!(env.builder().is_none());
        assert!(env.build().is_none());
        assert!(AvatarStorage::from_env(&env).is_none());
    }
}

#[test]
fn complete_environment_builds_a_store() {
    assert!(matches!(env().build(), Some(Ok(_))));
    let storage = storage();
    assert_eq!(storage.store().to_string(), "AmazonS3(aip-avatars)");
    assert_eq!(storage.clone().store().to_string(), "AmazonS3(aip-avatars)");
}

#[test]
fn failed_build_means_no_storage() {
    let built = AmazonS3Builder::new().build();
    assert!(built.is_err());
    assert!(AvatarStorage::from_built(built).is_none());
}

#[test]
fn avatar_is_put_under_its_cid() {
    let request = storage().put(CID, b"\x89PNG", "image/png");
    assert_eq!(request.location.as_ref(), CID);
    assert_eq!(request.payload.content_length(), 4);
    assert_eq!(request.options.mode, PutMode::Overwrite);
    assert_eq!(request.options.tags.encoded(), "");
    assert_eq!(request.options.attributes.len(), 1);
    let content_type = request.options.attributes.get(&Attribute::ContentType).unwrap();
    assert_eq!(content_type.as_ref(), "image/png");
}

#[test]
fn odd_names_are_encoded() {
    assert_eq!(storage().get("a//b%").as_ref(), "a/b%25");
    assert_eq!(storage().get("..").as_ref(), "%2E%2E");
    assert_eq!(storage().get("A-z_09").as_ref(), "A-z_09");
}

#[test]
fn avatar_is_fetched_from_where_it_was_put() {
    let storage = storage();
    let store = InMemory::new();
    let stale = PutPayload::from_static(b"something else");
    ready(store.put(&storage.get(CID), stale)).unwrap();
    for _ in 0..2 {
        let request = storage.put(CID, b"\x89PNG\r\n\x1a\n...", "image/png");
        ready(store.put_opts(&request.location, request.payload, request.options)).unwrap();
    }
    let location = match handle_avatar(&Some(storage), CID) {
        Ok(location) => location,
        Err(_) => panic!("refused"),
    };
    let bytes = ready(ready(store.get(&location)).unwrap().bytes()).unwrap();
    assert_eq!(&bytes[..], b"\x89PNG\r\n\x1a\n...");
}

#[test]
fn different_avatars_are_kept_apart() {
    let storage = storage();
    assert_ne!(storage.put("cidA", b"1", "image/png").location, storage.get("cidB"));
    assert_eq!(storage.put("cidA", b"1", "image/png").location, storage.get("cidA"));
}

#[test]
fn store_faults_are_described() {
    assert_eq!(put_failure("timeout"), "avatar storage put failed: timeout");
    assert_eq!(get_failure("gone"), "avatar storage get failed: gone");
    assert_eq!(get_stream_failure("cut"), "avatar storage get stream failed: cut");
}

#[test]
fn upload_fails_exactly_when_the_write_does() {
    assert_eq!(put_outcome(Ok(())), Ok(()));
    assert_eq!(
        put_outcome(Err("timeout".to_string())),
        Err("avatar storage put failed: timeout".to_string())
    );
}

#[test]
fn download_tells_its_failures_apart() {
    assert_eq!(
        get_outcome(Download::Refused("gone".to_string())),
        Err("avatar storage get failed: gone".to_string())
    );
    assert_eq!(
        get_outcome(Download::BrokenOff("cut".to_string())),
        Err("avatar storage get stream failed: cut".to_string())
    );
    assert_eq!(get_outcome(Download::Whole(vec![1, 2])), Ok(vec![1, 2]));
    assert_eq!(get_outcome(Download::Whole(vec![])), Ok(vec![]));
}

#[test]
fn empty_avatar_is_uploaded_too() {
    let request = storage().put(CID, b"", "image/png");
    assert_eq!(request.payload.content_length(), 0);
    assert_eq!(request.location.as_ref(), CID);
}

#[test]
fn content_types_are_sniffed() {
    assert_eq!(sniff_image_content_type(b"\x89PNG\r\n\x1a\n"), "image/png");
    assert_eq!(sniff_image_content_type(b"\x89PNG\r\n\x1a"), "application/octet-stream");
    assert_eq!(sniff_image_content_type(&[0xff, 0xd8, 0xff]), "image/jpeg");
    assert_eq!(sniff_image_content_type(&[0xff, 0xd8]), "application/octet-stream");
    assert_eq!(sniff_image_content_type(b"GIF89a"), "image/gif");
    assert_eq!(sniff_image_content_type(b"RIFF\x10\x20\x30\x40WEBPVP8 "), "image/webp");
    assert_eq!(sniff_image_content_type(b"RIFF\x10\x20\x30\x40WEBP"), "image/webp");
    assert_eq!(sniff_image_content_type(b"RIFF\x10\x20\x30\x40WAVE"), "application/octet-stream");
    assert_eq!(sniff_image_content_type(b"RIFF\x10\x20\x30\x40WEB"), "application/octet-stream");
    assert_eq!(sniff_image_content_type(b"\x00\x00\x00\x18ftypheic"), "image/heic");
    assert_eq!(sniff_image_content_type(b"\x00\x00"), "application/octet-stream");
    assert_eq!(sniff_image_content_type(b""), "application/octet-stream");
}

#[test]
fn content_type_rests_on_leading_bytes() {
    let bytes = b"RIFF\x10\x20\x30\x40WEBPVP8 and so on";
    assert_eq!(sniff_image_content_type(bytes), sniff_image_content_type(&bytes[..12]));
}

#[test]
fn picture_is_served_under_the_external_base() {
    assert_eq!(
        picture_url(Some("https://login.example.com"), "bafy").unwrap(),
        "https://login.example.com/oauth/avatar/bafy"
    );
    assert!(picture_url(None, "bafy").is_none());
}

#[test]
fn fetched_avatar_is_served_with_its_type_for_good() {
    let reply = match avatar_reply(Ok(b"GIF89a...".to_vec())) {
        Ok(reply) => reply,
        Err(_) => panic!("refused"),
    };
    assert_eq!(reply.status, 200);
    assert_eq!(reply.body, b"GIF89a...");
    assert_eq!(reply.headers.len(), 2);
    assert_eq!(reply.headers["content-type"], "image/gif");
    assert_eq!(reply.headers["cache-control"], "public, max-age=31536000, immutable");
}

#[test]
fn unknown_bytes_are_served_as_such() {
    let reply = match avatar_reply(Ok(vec![])) {
        Ok(reply) => reply,
        Err(_) => panic!("refused"),
    };
    assert_eq!(reply.headers["content-type"], "application/octet-stream");
}

#[test]
fn missing_avatar_is_not_found() {
    let reply = match avatar_reply(Err("avatar storage get failed: gone".to_string())) {
        Ok(_) => panic!("served"),
        Err(reply) => reply,
    };
    assert_eq!(reply.status, 404);
    assert_eq!(reply.body.len(), 2);
    assert_eq!(reply.body["error"], Value::from("not_found"));
    assert_eq!(reply.body["error_description"], Value::from("avatar not found"));
}

#[test]
fn missing_storage_is_not_found() {
    let reply = match handle_avatar(&None, CID) {
        Ok(_) => panic!("located"),
        Err(reply) => reply,
    };
    assert_eq!(reply.status, 404);
    assert_eq!(reply.body["error"], Value::from("not_found"));
    assert_eq!(
        reply.body["error_description"],
        Value::from("avatar storage not configured")
    );
}
