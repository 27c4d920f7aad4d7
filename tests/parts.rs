use aws_multipart_upload::body::PartBody;
use aws_multipart_upload::limits::{part_size, upload_size, AWS_MAX_OBJECT_SIZE, AWS_MAX_PART_SIZE, AWS_MIN_PART_SIZE};
use aws_multipart_upload::parts::{CompletedPart, CompletedParts, UploadedParts};
use aws_multipart_upload::state::{TargetPart, TargetUpload};
use aws_multipart_upload::types::{EntityTag, PartNumber, UploadId};

const MIB: u64 = 1024 * 1024;

fn part(n: i32, size: usize) -> CompletedPart {
    CompletedPart::new(UploadId::new("id"), EntityTag::new(&format!("tag-{n}")), PartNumber::new(n), size)
}

fn numbers(parts: &CompletedParts) -> Vec<i32> {
    (0..parts.count()).map(|i| parts.get(i).part_number.get()).collect()
}

#[test]
fn sort_orders_by_part_number() {
    let mut parts = CompletedParts::new();
    for n in [3, 1, 4, 2, 5] {
        parts.push(part(n, 10));
    }
    parts.sort_ascending();
    assert_eq!(numbers(&parts), vec![1, 2, 3, 4, 5]);
    assert_eq!(parts.get(0).etag.as_str(), "tag-1");
}

#[test]
fn extend_sorts_the_whole() {
    let mut a = CompletedParts::new();
    a.push(part(4, 1));
    a.push(part(2, 1));
    let mut b = CompletedParts::new();
    b.push(part(3, 1));
    b.push(part(1, 1));
    a.extend(b);
    assert_eq!(numbers(&a), vec![1, 2, 3, 4]);
}

#[test]
fn size_and_count_and_max() {
    let mut parts = CompletedParts::new();
    assert_eq!(parts.max_part_number().get(), 1);
    assert_eq!(parts.size(), 0);
    parts.push(part(2, 100));
    parts.push(part(7, 23));
    parts.push(part(5, 1));
    assert_eq!(parts.count(), 3);
    assert_eq!(parts.size(), 124);
    assert_eq!(parts.max_part_number().get(), 7);
}

#[test]
fn part_number_increments() {
    let mut n = PartNumber::first();
    let prev = n.increment();
    assert_eq!(prev.get(), 1);
    assert_eq!(n.get(), 2);
    n.incr();
    assert_eq!(n.get(), 3);
}

#[test]
fn uploaded_parts_number_in_sequence() {
    let mut up = UploadedParts::new();
    assert_eq!(up.last_part_number(), 0);
    assert_eq!(up.next_part_number(), 1);
    up.update(EntityTag::new("a"));
    up.update(EntityTag::new("b"));
    assert_eq!(up.num_parts(), 2);
    assert_eq!(up.last_part_number(), 2);
    assert_eq!(up.parts[1].1, 2);
}

#[test]
fn part_body_holds_what_was_written() {
    let mut body = PartBody::with_capacity(4);
    assert_eq!(body.size(), 0);
    body.write(b"abc");
    body.write(b"de");
    assert_eq!(body.size(), 5);
    assert_eq!(body.to_vec(), b"abcde".to_vec());
}

#[test]
fn part_size_is_clamped() {
    assert_eq!(part_size(1), AWS_MIN_PART_SIZE);
    assert_eq!(part_size(0), 5 * MIB);
    assert_eq!(part_size(7 * MIB), 7 * MIB);
    assert_eq!(part_size(6 * 1024 * MIB), AWS_MAX_PART_SIZE);
    assert_eq!(AWS_MAX_PART_SIZE, 5 * 1024 * MIB);
    let t = TargetPart::new().target_part_bytes(MIB);
    assert_eq!(t.part_bytes, 5 * MIB);
}

#[test]
fn upload_size_is_clamped() {
    assert_eq!(upload_size(6 * 1024 * 1024 * MIB), AWS_MAX_OBJECT_SIZE);
    assert_eq!(upload_size(11 * MIB), 11 * MIB);
    let t = TargetUpload::new().target_bytes(u64::MAX).target_parts(20000).max_capacity(Some(3));
    assert_eq!(t.upload_bytes, AWS_MAX_OBJECT_SIZE);
    assert_eq!(t.upload_parts, 10000);
    assert_eq!(t.capacity, Some(3));
}

#[test]
fn min_part_bytes_never_below_backend_minimum() {
    let t = TargetPart::new().with_min_part_bytes(1).with_target_items(50);
    assert_eq!(t.min_part_bytes, AWS_MIN_PART_SIZE);
    assert_eq!(t.part_items, 50);
}

#[test]
fn response_fields_become_ids_or_missing_errors() {
    assert_eq!(UploadId::try_from_create_resp(Some("abc")).unwrap().as_str(), "abc");
    assert!(UploadId::try_from_create_resp(None).is_err());
    assert_eq!(EntityTag::try_from_upload_resp(Some("\"e1\"")).unwrap().as_str(), "\"e1\"");
    assert!(EntityTag::try_from_upload_resp(None).is_err());
    assert_eq!(EntityTag::try_from_complete_resp(Some("o")).unwrap().as_str(), "o");
    let err = EntityTag::try_from_complete_resp(None).unwrap_err();
    assert!(matches!(err.kind(), aws_multipart_upload::error::ErrorKind::Config));
}
