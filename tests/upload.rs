use aws_multipart_upload::body::PartBody;
use aws_multipart_upload::error::{ErrorKind, ErrorRepr, UploadViolation};
use aws_multipart_upload::types::{EntityTag, PartNumber, UploadData, UploadId};
use aws_multipart_upload::upload::{Upload, UploadAction};
use aws_multipart_upload::uri::{Bucket, Key, ObjectUri};

fn uri(key: &str) -> ObjectUri {
    ObjectUri::new(Bucket::new("bucket"), Key::new(key))
}

fn body(n: usize) -> PartBody {
    let mut b = PartBody::with_capacity(n);
    b.write(&vec![7u8; n]);
    b
}

fn activate(up: &mut Upload, id: &str) {
    match up.poll_ready() {
        UploadAction::Create(req) => {
            assert!(req.validate().is_ok());
            up.on_created(Ok(UploadId::new(id))).unwrap();
        }
        other => panic!("expected a create request, got {other:?}"),
    }
}

#[test]
fn part_numbers_count_from_one() {
    let mut up = Upload::new(None, Some(uri("k")));
    activate(&mut up, "u1");
    let mut seen = Vec::new();
    for _ in 0..5 {
        assert!(matches!(up.poll_ready(), UploadAction::Ready));
        let (req, sent) = up.start_send(body(3)).unwrap();
        assert_eq!(req.part_number().get(), sent.part.get());
        assert_eq!(sent.bytes, 3);
        assert_eq!(sent.id.as_str(), "u1");
        assert_eq!(req.body().to_vec(), vec![7u8; 3]);
        seen.push(req.part_number().get());
    }
    assert_eq!(seen, vec![1, 2, 3, 4, 5]);
}

#[test]
fn complete_request_sorts_parts_completed_out_of_order() {
    let mut up = Upload::new(None, Some(uri("k")));
    activate(&mut up, "u1");
    for _ in 0..4 {
        up.start_send(body(1)).unwrap();
    }
    for n in [3, 1, 4, 2] {
        assert!(up.on_part_uploaded(PartNumber::new(n), EntityTag::new("t")));
    }
    assert!(!up.on_part_uploaded(PartNumber::new(9), EntityTag::new("t")));
    assert!(up.is_flushed());
    let req = up.complete_request().unwrap();
    let parts = req.completed_parts();
    let nums: Vec<i32> = (0..parts.count()).map(|i| parts.get(i).part_number.get()).collect();
    assert_eq!(nums, vec![1, 2, 3, 4]);
    assert!(req.validate().is_ok());
    let done = up.on_completed(Ok(EntityTag::new("object-tag")), None).unwrap();
    assert_eq!(done.etag.as_str(), "object-tag");
    assert_eq!(done.uri.key.as_str(), "k");
    assert!(up.is_terminated());
}

#[test]
fn pool_never_exceeds_its_capacity() {
    let mut up = Upload::new(Some(2), Some(uri("k")));
    activate(&mut up, "u1");
    up.start_send(body(1)).unwrap();
    assert!(matches!(up.poll_ready(), UploadAction::Ready));
    up.start_send(body(1)).unwrap();
    assert!(matches!(up.poll_ready(), UploadAction::Wait));
    assert!(up.on_part_uploaded(PartNumber::new(1), EntityTag::new("t")));
    assert!(matches!(up.poll_ready(), UploadAction::Ready));
}

#[test]
fn failed_part_carries_upload_context() {
    // one part in flight at a time; the third part fails
    let mut up = Upload::new(Some(1), Some(uri("k")));
    activate(&mut up, "u1");
    for n in 1..=2 {
        assert!(matches!(up.poll_ready(), UploadAction::Ready));
        up.start_send(body(1)).unwrap();
        assert!(up.on_part_uploaded(PartNumber::new(n), EntityTag::new("t")));
    }
    up.start_send(body(1)).unwrap();
    let err = up.on_part_failed(PartNumber::new(3), "connection reset".to_string());
    assert!(matches!(err.kind(), ErrorKind::Transport));
    let failed = err.failed_upload().unwrap();
    assert_eq!(failed.id.as_str(), "u1");
    assert_eq!(failed.uri.key.as_str(), "k");
    assert_eq!(failed.part.unwrap().get(), 3);
    assert_eq!(failed.completed.count(), 2);
    let abort = failed.abort_request();
    assert_eq!(abort.id().as_str(), "u1");
    assert_eq!(abort.uri().key.as_str(), "k");
    assert!(abort.validate().is_ok());
    assert!(up.is_terminated());
}

#[test]
fn empty_upload_id_is_refused() {
    let mut up = Upload::new(None, Some(uri("k")));
    assert!(matches!(up.poll_ready(), UploadAction::Create(_)));
    let err = up.on_created(Ok(UploadId::new(""))).unwrap_err();
    assert!(matches!(err.kind(), ErrorKind::Config));
    assert!(up.upload_data().is_none());
}

#[test]
fn create_failure_on_second_rollover() {
    let mut up = Upload::new(None, Some(uri("first")));
    activate(&mut up, "u1");
    up.start_send(body(1)).unwrap();
    up.on_part_uploaded(PartNumber::new(1), EntityTag::new("t"));
    up.complete_request().unwrap();
    let done = up.on_completed(Ok(EntityTag::new("o1")), Some(uri("second"))).unwrap();
    assert_eq!(done.uri.key.as_str(), "first");
    assert!(!up.is_terminated());
    match up.poll_ready() {
        UploadAction::Create(req) => assert_eq!(req.uri().key.as_str(), "second"),
        other => panic!("expected a create request, got {other:?}"),
    }
    let err = up.on_created(Err("access denied".to_string())).unwrap_err();
    assert!(matches!(err.kind(), ErrorKind::Transport));
    let failed = err.failed_upload().unwrap();
    assert!(failed.part.is_none());
    assert_eq!(failed.uri.key.as_str(), "second");
    assert!(up.is_terminated());
}

#[test]
fn rollover_after_the_largest_part_count() {
    let mut up = Upload::new(None, Some(uri("first")));
    activate(&mut up, "u1");
    for _ in 0..10000 {
        up.start_send(body(1)).unwrap();
    }
    let err = up.start_send(body(1)).unwrap_err();
    assert!(matches!(err.repr, ErrorRepr::Upload { violation: UploadViolation::TooManyParts }));
    for n in 1..=10000 {
        up.on_part_uploaded(PartNumber::new(n), EntityTag::new("t"));
    }
    let req = up.complete_request().unwrap();
    assert_eq!(req.completed_parts().count(), 10000);
    up.on_completed(Ok(EntityTag::new("o1")), Some(uri("second"))).unwrap();
    activate(&mut up, "u2");
    let (req, _) = up.start_send(body(1)).unwrap();
    assert_eq!(req.part_number().get(), 1);
    assert_eq!(req.uri().key.as_str(), "second");
}

#[test]
fn no_next_uri_means_terminated() {
    let mut up = Upload::new(None, None);
    assert!(up.is_terminated());
    assert!(matches!(up.poll_ready(), UploadAction::Terminated));
    assert!(up.complete_request().is_none());
}

#[test]
fn upload_data_cannot_replace_an_active_upload() {
    let mut up = Upload::new(None, None);
    up.with_upload_data(UploadData::new(UploadId::new("resumed"), uri("k"))).unwrap();
    assert_eq!(up.upload_data().unwrap().id.as_str(), "resumed");
    let err = up.with_upload_data(UploadData::new(UploadId::new("other"), uri("k"))).unwrap_err();
    assert!(matches!(err.kind(), ErrorKind::Upload));
    assert!(matches!(err.repr, ErrorRepr::Upload { violation: UploadViolation::UploadStillActive }));
}
