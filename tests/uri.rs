use aws_multipart_upload::error::ErrorKind;
use aws_multipart_upload::request::CreateRequest;
use aws_multipart_upload::uri::{Bucket, Key, KeyPrefix, ObjectUri};
use aws_multipart_upload::uri_iter::{EmptyUri, MapKey, NewObjectUri, ObjectUriIterExt, OneTimeUse};

fn uri(bucket: &str, key: &str) -> ObjectUri {
    ObjectUri::new(Bucket::new(bucket), Key::new(key))
}

#[test]
fn key_prefix_is_normalized() {
    let p = KeyPrefix::new("/static/object/prefix//");
    assert_eq!(p.as_str(), "static/object/prefix/");
}

#[test]
fn key_prefix_without_slashes_gets_one() {
    assert_eq!(KeyPrefix::new("abc").as_str(), "abc/");
}

#[test]
fn key_prefix_of_only_slashes() {
    assert_eq!(KeyPrefix::new("///").as_str(), "/");
    assert_eq!(KeyPrefix::new("").as_str(), "/");
}

#[test]
fn key_prefix_normalizing_twice_is_once() {
    for raw in ["//a/b//", "a", "", "/", "x/y/z/", "/lead"] {
        let once = KeyPrefix::new(raw);
        let twice = KeyPrefix::new(once.as_str());
        assert_eq!(once.as_str(), twice.as_str());
    }
}

#[test]
fn key_prefix_append_normalizes() {
    let a = KeyPrefix::new("a");
    let b = KeyPrefix::new("/b/c/");
    assert_eq!(a.append(&b).as_str(), "a/b/c/");
}

#[test]
fn key_prefix_to_key() {
    let p = KeyPrefix::new("static/object/prefix");
    let k = p.to_key("2025/11/11/1763683634194850.csv");
    assert_eq!(k.as_str(), "static/object/prefix/2025/11/11/1763683634194850.csv");
}

#[test]
fn bucket_drops_trailing_slashes() {
    assert_eq!(Bucket::new("my-bucket/").as_str(), "my-bucket");
    assert_eq!(Bucket::new("my-bucket//").as_str(), "my-bucket");
    assert_eq!(Bucket::new("my-bucket").as_str(), "my-bucket");
    assert!(Bucket::new("/").is_empty());
}

#[test]
fn empty_bucket_or_key_fails_validation() {
    let no_bucket = CreateRequest::new(uri("", "key"));
    let err = no_bucket.validate().unwrap_err();
    assert!(matches!(err.kind(), ErrorKind::Config));
    let no_key = CreateRequest::new(uri("bucket", ""));
    assert!(no_key.validate().is_err());
    let neither = CreateRequest::new(uri("", ""));
    assert!(neither.validate().is_err());
    let both = CreateRequest::new(uri("bucket", "key"));
    assert!(both.validate().is_ok());
}

#[test]
fn one_time_use_yields_once() {
    let mut it = OneTimeUse::new(uri("b", "k"));
    assert!(!it.is_empty());
    let first = it.next().unwrap();
    assert_eq!(first.bucket.as_str(), "b");
    assert_eq!(first.key.as_str(), "k");
    assert!(it.is_empty());
    assert!(it.next().is_none());
}

#[test]
fn empty_uri_yields_nothing() {
    let mut it = EmptyUri;
    assert!(it.next().is_none());
}

#[test]
fn new_object_uri_yields_in_order() {
    let mut it = NewObjectUri::uri_iter(vec![uri("b", "one"), uri("b", "two")]);
    assert_eq!(it.new_uri().unwrap().key.as_str(), "one");
    assert_eq!(it.new_uri().unwrap().key.as_str(), "two");
    assert!(it.new_uri().is_none());
    assert!(NewObjectUri::empty().new_uri().is_none());
}

#[test]
fn map_key_puts_name_under_each_prefix() {
    let prefixes = vec![KeyPrefix::new("2025/11/11"), KeyPrefix::new("2025/11/12")];
    let mut it: MapKey = prefixes.map_key(Bucket::new("my-bucket/"), "data.csv");
    let a = it.next().unwrap();
    assert_eq!(a.bucket.as_str(), "my-bucket");
    assert_eq!(a.key.as_str(), "2025/11/11/data.csv");
    let b = it.next().unwrap();
    assert_eq!(b.key.as_str(), "2025/11/12/data.csv");
    assert!(it.next().is_none());
}

#[test]
fn new_upload_request_or_missing_next_uri() {
    let mut it = NewObjectUri::uri_iter(vec![uri("b", "only")]);
    let req = it.new_upload().unwrap();
    assert_eq!(req.uri().key.as_str(), "only");
    let err = it.new_upload().unwrap_err();
    assert!(matches!(err.kind(), ErrorKind::Upload));
}
