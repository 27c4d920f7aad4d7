use aws_multipart_upload::body::PartBody;
use aws_multipart_upload::codec::{LinesEncoder, PartEncoder};
use aws_multipart_upload::encoded::{EncodedAction, EncodedUpload};
use aws_multipart_upload::error::{EncodeErrorKind, Error, ErrorKind};
use aws_multipart_upload::limits::AWS_MIN_PART_SIZE;
use aws_multipart_upload::state::{TargetPart, TargetUpload};
use aws_multipart_upload::types::{CompletedUpload, EntityTag, UploadId};
use aws_multipart_upload::uri::{Bucket, Key, ObjectUri};

const MIB: u64 = 1024 * 1024;

/// What an in-memory backend saw.
#[derive(Default)]
struct Backend {
    creates: usize,
    bodies: Vec<Vec<u8>>,
    completed: Vec<CompletedUpload>,
    parts_per_object: Vec<Vec<i32>>,
    next: Vec<ObjectUri>,
}

fn uri(key: &str) -> ObjectUri {
    ObjectUri::new(Bucket::new("bucket"), Key::new(key))
}

fn perform<E: PartEncoder>(up: &mut EncodedUpload<E>, action: EncodedAction, be: &mut Backend) {
    match action {
        EncodedAction::Create(req) => {
            req.validate().unwrap();
            be.creates += 1;
            up.on_created(Ok(UploadId::new(&format!("id-{}", be.creates)))).unwrap();
        }
        EncodedAction::Send(req) => {
            req.validate().unwrap();
            be.bodies.push(req.body().to_vec());
            assert!(up.on_part_uploaded(req.part_number(), EntityTag::new("etag")));
        }
        EncodedAction::Complete(req) => {
            req.validate().unwrap();
            let parts = req.completed_parts();
            be.parts_per_object.push((0..parts.count()).map(|i| parts.get(i).part_number.get()).collect());
            let next = if be.next.is_empty() { None } else { Some(be.next.remove(0)) };
            let done = up.on_completed(Ok(EntityTag::new("object")), next).unwrap();
            be.completed.push(done);
        }
        EncodedAction::Wait | EncodedAction::Ready | EncodedAction::Done => {}
    }
}

fn send<E: PartEncoder>(up: &mut EncodedUpload<E>, item: &[u8], be: &mut Backend) -> bool {
    loop {
        match up.poll_ready().unwrap() {
            EncodedAction::Ready => break,
            a => perform(up, a, be),
        }
    }
    up.start_send(item).unwrap().should_complete
}

fn complete<E: PartEncoder>(up: &mut EncodedUpload<E>, be: &mut Backend) {
    loop {
        match up.poll_complete().unwrap() {
            EncodedAction::Done => break,
            EncodedAction::Complete(req) => {
                perform(up, EncodedAction::Complete(req), be);
                break;
            }
            a => perform(up, a, be),
        }
    }
}

fn targets(part: u64, object: u64) -> (TargetUpload, TargetPart) {
    (
        TargetUpload::new().target_bytes(object).max_capacity(Some(10)),
        TargetPart::new().target_part_bytes(part),
    )
}

#[test]
fn no_items_means_no_upload() {
    let (tu, tp) = targets(5 * MIB, 5 * MIB);
    let mut up = EncodedUpload::new(LinesEncoder::new(), tu, tp, Some(uri("k")));
    let mut be = Backend::default();
    assert!(matches!(up.poll_flush().unwrap(), EncodedAction::Ready));
    assert!(matches!(up.poll_complete().unwrap(), EncodedAction::Done));
    complete(&mut up, &mut be);
    assert_eq!(be.creates, 0);
    assert!(be.bodies.is_empty());
}

#[test]
fn exactly_one_part_of_bytes_gives_one_part() {
    let (tu, tp) = targets(5 * MIB, 100 * MIB);
    let mut up = EncodedUpload::new(PartBody::with_capacity(0), tu, tp, Some(uri("k")));
    let mut be = Backend::default();
    let item = vec![1u8; MIB as usize];
    for _ in 0..5 {
        send(&mut up, &item, &mut be);
    }
    assert!(up.status().should_upload);
    complete(&mut up, &mut be);
    assert_eq!(be.creates, 1);
    assert_eq!(be.bodies.len(), 1);
    assert_eq!(be.bodies[0].len() as u64, 5 * MIB);
    assert_eq!(be.parts_per_object, vec![vec![1]]);
}

#[test]
fn twelve_mib_makes_three_parts_with_a_small_last_one() {
    let (tu, tp) = targets(5 * MIB, 11 * MIB);
    let mut up = EncodedUpload::new(LinesEncoder::new(), tu, tp, Some(uri("k")));
    let mut be = Backend::default();
    let item = vec![b'x'; 1257];
    let mut due = false;
    for _ in 0..10000 {
        due = send(&mut up, &item, &mut be) || due;
    }
    assert!(due);
    complete(&mut up, &mut be);
    assert_eq!(be.completed.len(), 1);
    assert!(be.bodies.len() >= 3);
    let last = be.bodies.len() - 1;
    for b in &be.bodies[..last] {
        assert!(b.len() as u64 >= AWS_MIN_PART_SIZE);
    }
    assert!((be.bodies[last].len() as u64) < AWS_MIN_PART_SIZE);
    assert_eq!(be.parts_per_object[0], (1..=be.bodies.len() as i32).collect::<Vec<_>>());
}

#[test]
fn lines_round_trip_through_parts() {
    let (tu, tp) = targets(5 * MIB, 5 * MIB);
    let mut up = EncodedUpload::new(LinesEncoder::new(), tu, tp, Some(uri("records.jsonl")));
    let mut be = Backend::default();
    let items: Vec<String> = (0..100).map(|n| format!("{{\"k1\":{n},\"k2\":\"{n}\"}}")).collect();
    for it in &items {
        send(&mut up, it.as_bytes(), &mut be);
    }
    complete(&mut up, &mut be);
    assert_eq!(be.completed.len(), 1);
    assert_eq!(be.completed[0].uri.key.as_str(), "records.jsonl");
    let joined: Vec<u8> = be.bodies.concat();
    let text = String::from_utf8(joined).unwrap();
    let decoded: Vec<&str> = text.lines().collect();
    assert_eq!(decoded.len(), 100);
    for (d, it) in decoded.iter().zip(items.iter()) {
        assert_eq!(d, it);
    }
}

#[test]
fn header_line_appears_once_per_object() {
    let (tu, tp) = targets(5 * MIB, 5 * MIB);
    let enc = LinesEncoder::new().with_header("k1,k2");
    let mut up = EncodedUpload::new(enc, tu, tp, Some(uri("rows.csv")));
    let mut be = Backend::default();
    for n in 0..100 {
        send(&mut up, format!("{n},{n}").as_bytes(), &mut be);
    }
    complete(&mut up, &mut be);
    let text = String::from_utf8(be.bodies.concat()).unwrap();
    let rows: Vec<&str> = text.lines().collect();
    assert_eq!(rows.len(), 101);
    assert_eq!(rows[0], "k1,k2");
    assert_eq!(rows.iter().filter(|r| **r == "k1,k2").count(), 1);
}

#[test]
fn objects_roll_over_to_the_next_uri() {
    let (tu, tp) = targets(5 * MIB, 5 * MIB);
    let mut up = EncodedUpload::new(PartBody::with_capacity(0), tu, tp, Some(uri("o1")));
    let mut be = Backend::default();
    be.next = vec![uri("o2")];
    let item = vec![2u8; MIB as usize];
    let mut finished = 0;
    for _ in 0..10 {
        if send(&mut up, &item, &mut be) {
            complete(&mut up, &mut be);
            finished += 1;
        }
    }
    assert_eq!(finished, 2);
    assert_eq!(be.completed.len(), 2);
    assert_eq!(be.completed[0].uri.key.as_str(), "o1");
    assert_eq!(be.completed[1].uri.key.as_str(), "o2");
    assert_eq!(be.creates, 2);
    assert!(up.is_terminated());
    let err = {
        up.start_send(&item).unwrap();
        up.start_send(&item).unwrap();
        up.start_send(&item).unwrap();
        up.start_send(&item).unwrap();
        up.start_send(&item).unwrap();
        up.poll_ready().unwrap_err()
    };
    assert!(matches!(err.kind(), ErrorKind::Upload));
}

#[test]
fn status_counts_items_and_bytes() {
    let (tu, tp) = targets(5 * MIB, 5 * MIB);
    let mut up = EncodedUpload::new(LinesEncoder::new(), tu, tp, Some(uri("k")));
    let s = up.start_send(b"abc").unwrap();
    assert_eq!(s.items, 1);
    assert_eq!(s.bytes, 4);
    assert_eq!(s.part_bytes, 4);
    assert_eq!(s.parts, 0);
    assert!(!s.should_upload);
    assert!(!s.should_complete);
    let s = up.start_send(b"").unwrap();
    assert_eq!(s.items, 2);
    assert_eq!(s.bytes, 5);
}

#[test]
fn lines_encoder_writes_item_then_newline() {
    let mut enc = LinesEncoder::new();
    assert_eq!(enc.encode_line(b"ab").unwrap(), 3);
    assert_eq!(PartEncoder::encode(&mut enc, b"c").unwrap(), 2);
    let body = enc.into_body().unwrap();
    assert_eq!(body.to_vec(), b"ab\nc\n".to_vec());
}

#[test]
fn error_kinds() {
    assert!(matches!(Error::other(ErrorKind::Config, "bad").kind(), ErrorKind::Config));
    assert!(matches!(Error::from_dyn_std("boom".to_string()).kind(), ErrorKind::Unknown));
    assert!(matches!(Error::missing("a", "b").kind(), ErrorKind::Config));
    assert!(matches!(Error::encoding("x".to_string(), EncodeErrorKind::Data).kind(), ErrorKind::Encoding));
    assert!(Error::missing("a", "b").failed_upload().is_none());
    assert_eq!(ErrorKind::Transport.as_str(), "transport");
    assert_eq!(ErrorKind::Config.as_str(), "config");
    assert_eq!(EncodeErrorKind::Eof.as_str(), "eof");
}

fn flush<E: PartEncoder>(up: &mut EncodedUpload<E>, be: &mut Backend) {
    loop {
        match up.poll_flush().unwrap() {
            EncodedAction::Ready => break,
            a => perform(up, a, be),
        }
    }
}

#[test]
fn full_upload_rolls_over_and_keeps_the_waiting_part() {
    let (tu, tp) = targets(5 * MIB, 100 * MIB);
    let mut up = EncodedUpload::new(LinesEncoder::new(), tu, tp, Some(uri("o1")));
    let mut be = Backend::default();
    be.next = vec![uri("o2")];
    for n in 0..10000 {
        up.start_send(format!("{n}").as_bytes()).unwrap();
        flush(&mut up, &mut be);
    }
    assert_eq!(be.bodies.len(), 10000);
    assert!(be.completed.is_empty());
    up.start_send(b"last").unwrap();
    flush(&mut up, &mut be);
    assert_eq!(be.completed.len(), 1);
    assert_eq!(be.completed[0].uri.key.as_str(), "o1");
    assert_eq!(be.parts_per_object[0].len(), 10000);
    assert_eq!(be.creates, 2);
    assert_eq!(be.bodies.len(), 10001);
    assert_eq!(be.bodies[10000], b"last\n".to_vec());
    complete(&mut up, &mut be);
    assert_eq!(be.completed.len(), 2);
    assert_eq!(be.completed[1].uri.key.as_str(), "o2");
    assert_eq!(be.parts_per_object[1], vec![1]);
}
