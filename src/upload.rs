//! The upload layer: the lifecycle of one object at a time, from its creation
//! through numbered parts to its completion, then on to the next destination.
use vstd::prelude::*;
use vstd::string::*;
use crate::body::PartBody;
use crate::error::{Error, ErrorRepr, FailedUpload, UploadViolation};
use crate::limits::AWS_MAX_PART_COUNT;
use crate::parts::{
    CompletedPart,
    CompletedParts,
    lemma_rearranged_parts_distinct,
    lemma_sorted_parts_strictly_ascending,
    strictly_sorted_by_number,
};
use crate::pool::{PartBuffer, PendingPart, number_in_pool};
use crate::request::{CompleteRequest, CreateRequest, UploadPartRequest};
use crate::types::{CompletedUpload, EntityTag, PartNumber, UploadData, UploadId};
use crate::uri::{ObjectUri, same_uri};

verus! {

/// Returned when a part upload was dispatched; not a sign that it succeeded.
#[derive(Debug)]
pub struct UploadSent {
    /// The ID of the active upload.
    pub id: UploadId,
    /// The destination of the active upload.
    pub uri: ObjectUri,
    /// The number the part was dispatched with.
    pub part: PartNumber,
    /// The size in bytes of the part's body.
    pub bytes: u64,
}

/// What the driver of an upload must do before it may send a part.
#[derive(Debug)]
pub enum UploadAction {
    /// Send this request to create the next upload, then report its outcome.
    Create(CreateRequest),
    /// A part may be sent now.
    Ready,
    /// Wait until a request in flight resolves, then ask again.
    Wait,
    /// No upload is active and no destination is left.
    Terminated,
}

/// Whether `s` is `1, 2, ..., s.len()`.
pub open spec fn counts_from_one(s: Seq<i32>) -> bool {
    forall|i: int| 0 <= i < s.len() ==> #[trigger] s[i] == i + 1
}

/// The lifecycle of one object at a time.
pub struct Upload {
    data: Option<UploadData>,
    creating: Option<ObjectUri>,
    completing: bool,
    next_uri: Option<ObjectUri>,
    part: PartNumber,
    buffer: PartBuffer,
    dispatched: Ghost<Seq<i32>>,
}

impl Upload {
    /// The active upload, if one is.
    pub closed spec fn data(&self) -> Option<UploadData> {
        self.data
    }

    /// The destination whose creation was requested and has not resolved.
    pub closed spec fn creating(&self) -> Option<ObjectUri> {
        self.creating
    }

    /// Whether the request to complete the active upload is out.
    pub closed spec fn completing(&self) -> bool {
        self.completing
    }

    /// The destination of the next upload, if one is known.
    pub closed spec fn next_uri(&self) -> Option<ObjectUri> {
        self.next_uri
    }

    /// The number the next part will be dispatched with.
    pub closed spec fn part(&self) -> PartNumber {
        self.part
    }

    /// The pending pool.
    pub closed spec fn buffer(&self) -> PartBuffer {
        self.buffer
    }

    /// The numbers of the parts dispatched within the active upload, in order.
    pub closed spec fn dispatched(&self) -> Seq<i32> {
        self.dispatched@
    }

    /// The invariant of the upload layer.
    pub open spec fn wf(&self) -> bool {
        &&& self.buffer().wf()
        &&& 1 <= self.part().0 <= AWS_MAX_PART_COUNT + 1
        &&& self.dispatched().len() == self.part().0 - 1
        &&& counts_from_one(self.dispatched())
        &&& forall|i: int|
            0 <= i < self.buffer().pending().len() ==> 1 <= #[trigger] self.buffer().pending()[i].part.0
                < self.part().0
        &&& forall|i: int|
            0 <= i < self.buffer().completed().len() ==> 1
                <= #[trigger] self.buffer().completed()[i].part_number.0 < self.part().0
        &&& self.creating() is Some ==> self.data() is None
        &&& self.completing() ==> self.data() is Some
        &&& self.completing() ==> self.buffer().pending().len() == 0
            && self.buffer().completed().len() == 0
        &&& self.data() is None ==> self.part().0 == 1
    }

    /// Whether the writer is done: nothing active, nothing being created, and no
    /// destination left.
    pub open spec fn spec_is_terminated(&self) -> bool {
        self.data() is None && self.creating() is None && self.next_uri() is None
    }

    /// A layer that will upload to `first`, if given, with at most `capacity`
    /// parts in flight.
    pub fn new(capacity: Option<usize>, first: Option<ObjectUri>) -> (r: Upload)
        ensures
            r.wf(),
            r.data() is None,
            r.creating() is None,
            !r.completing(),
            r.next_uri() == first,
            r.buffer().capacity() == (if capacity == Some(0usize) {
                None
            } else {
                capacity
            }),
            r.buffer().pending().len() == 0,
            r.buffer().completed().len() == 0,
    {
        Upload {
            data: None,
            creating: None,
            completing: false,
            next_uri: first,
            part: PartNumber::first(),
            buffer: PartBuffer::new(capacity),
            dispatched: Ghost(Seq::empty()),
        }
    }

    /// Whether the writer is done.
    pub fn is_terminated(&self) -> (r: bool)
        ensures
            r == self.spec_is_terminated(),
    {
        self.data.is_none() && self.creating.is_none() && self.next_uri.is_none()
    }

    /// The active upload, if one is.
    pub fn upload_data(&self) -> (r: Option<&UploadData>)
        ensures
            r == match self.data() {
                Some(d) => Some(&d),
                None => None,
            },
    {
        match &self.data {
            Some(d) => Some(d),
            None => None,
        }
    }

    /// The number the next part will be dispatched with.
    pub fn next_part_number(&self) -> (r: PartNumber)
        ensures
            r == self.part(),
    {
        self.part
    }

    /// Whether the creation of an upload was requested and has not resolved.
    pub fn is_creating(&self) -> (r: bool)
        ensures
            r == self.creating() is Some,
    {
        self.creating.is_some()
    }

    /// Whether the request to complete the active upload is out.
    pub fn is_completing(&self) -> (r: bool)
        ensures
            r == self.completing(),
    {
        self.completing
    }

    /// Whether every dispatched part has resolved.
    pub fn is_flushed(&self) -> (r: bool)
        ensures
            r == (self.buffer().pending().len() == 0),
    {
        self.buffer.is_flushed()
    }

    /// Decides what must happen before a part can be sent: with an active
    /// upload, whether the pool has room; otherwise the creation of the next
    /// upload, or the end when no destination is left.
    pub fn poll_ready(&mut self) -> (r: UploadAction)
        requires
            old(self).wf(),
        ensures
            final(self).wf(),
            final(self).data() == old(self).data(),
            final(self).buffer() == old(self).buffer(),
            final(self).part() == old(self).part(),
            final(self).dispatched() == old(self).dispatched(),
            final(self).completing() == old(self).completing(),
            !(r is Create) ==> *final(self) == *old(self),
            old(self).data() is Some ==> final(self).creating() == old(self).creating()
                && final(self).next_uri() == old(self).next_uri() && (if old(self).buffer().spec_is_ready() && !old(self).completing() {
                r is Ready
            } else {
                r is Wait
            }),
            old(self).data() is None && old(self).creating() is Some ==> r is Wait
                && final(self).creating() == old(self).creating()
                && final(self).next_uri() == old(self).next_uri(),
            old(self).data() is None && old(self).creating() is None && old(self).next_uri() is None
                ==> r is Terminated && final(self).spec_is_terminated(),
            old(self).data() is None && old(self).creating() is None && old(self).next_uri() is Some
                ==> (r matches UploadAction::Create(req) && same_uri(req.spec_uri(), old(self).next_uri()->0))
                && final(self).creating() == old(self).next_uri() && final(self).next_uri() is None,
    {
        if self.data.is_some() {
            if self.buffer.is_ready() && !self.completing {
                UploadAction::Ready
            } else {
                UploadAction::Wait
            }
        } else if self.creating.is_some() {
            UploadAction::Wait
        } else {
            match self.next_uri.take() {
                Some(uri) => {
                    let req = CreateRequest::new(uri.clone());
                    self.creating = Some(uri);
                    assert(same_uri(req.spec_uri(), uri));
                    UploadAction::Create(req)
                },
                None => UploadAction::Terminated,
            }
        }
    }

    /// Records the outcome of the request to create an upload: with a
    /// nonempty ID the new upload becomes active with its first part number;
    /// an empty ID is refused as a missing value; on failure the error carries
    /// the destination and no part.
    pub fn on_created(&mut self, result: Result<UploadId, String>) -> (r: Result<(), Error>)
        requires
            old(self).wf(),
            old(self).creating() is Some,
        ensures
            final(self).wf(),
            final(self).creating() is None,
            !final(self).completing(),
            final(self).next_uri() == old(self).next_uri(),
            final(self).part().0 == 1,
            final(self).dispatched().len() == 0,
            r.is_ok() == (result.is_ok() && result->Ok_0@.len() > 0),
            r.is_ok() ==> final(self).data() == Some(
                (UploadData { id: result->Ok_0, uri: old(self).creating()->0 }),
            ),
            r.is_err() ==> final(self).data() is None,
            result.is_ok() && r.is_err() ==> r->Err_0.repr is Missing,
            result.is_err() ==> (r->Err_0.repr matches ErrorRepr::Transport { failed: Some(f), message }
                && f.part is None && f.id@.len() == 0 && f.uri == old(self).creating()->0
                && message == result->Err_0),
    {
        let uri = self.creating.take().unwrap();
        match result {
            Ok(id) => {
                if id.is_empty() {
                    return Err(Error::missing("CreateResponse", "empty upload id"));
                }
                self.data = Some(UploadData::new(id, uri));
                Ok(())
            },
            Err(message) => {
                let empty = "";
                proof {
                    reveal_strlit("");
                }
                let failed = FailedUpload::new(
                    UploadId::new(empty),
                    uri,
                    None,
                    CompletedParts::new(),
                );
                Err(Error::transport(Some(failed), message))
            },
        }
    }

    /// Makes `data` the active upload, for resuming one created elsewhere; fails
    /// while another upload is active or being created.
    pub fn with_upload_data(&mut self, data: UploadData) -> (r: Result<(), Error>)
        requires
            old(self).wf(),
        ensures
            final(self).wf(),
            r.is_err() == (old(self).data() is Some || old(self).creating() is Some),
            r.is_err() ==> *final(self) == *old(self) && r->Err_0.repr == (ErrorRepr::Upload {
                violation: UploadViolation::UploadStillActive,
            }),
            r.is_ok() ==> final(self).data() == Some(data) && final(self).part().0 == 1
                && final(self).next_uri() == old(self).next_uri() && !final(self).completing(),
    {
        if self.data.is_some() || self.creating.is_some() {
            Err(Error::upload(UploadViolation::UploadStillActive))
        } else {
            self.data = Some(data);
            Ok(())
        }
    }

    /// Dispatches `body` as the next part of the active upload: the request
    /// carries the current part number, which then moves on by one. Fails
    /// once the upload holds the largest number of parts.
    pub fn start_send(&mut self, body: PartBody) -> (r: Result<(UploadPartRequest, UploadSent), Error>)
        requires
            old(self).wf(),
            old(self).data() is Some,
            !old(self).completing(),
            old(self).buffer().spec_is_ready(),
        ensures
            final(self).wf(),
            final(self).data() == old(self).data(),
            final(self).creating() == old(self).creating(),
            final(self).next_uri() == old(self).next_uri(),
            !final(self).completing(),
            final(self).buffer().completed() == old(self).buffer().completed(),
            final(self).buffer().capacity() == old(self).buffer().capacity(),
            r.is_err() == (old(self).part().0 > AWS_MAX_PART_COUNT),
            r.is_err() ==> final(self).part() == old(self).part() && final(self).dispatched() == old(self).dispatched() && final(self).buffer() == old(self).buffer() && r->Err_0.repr == (
            ErrorRepr::Upload { violation: UploadViolation::TooManyParts }),
            r.is_ok() ==> ({
                let (req, sent) = r->Ok_0;
                let data = old(self).data()->0;
                &&& req.spec_part_number() == old(self).part()
                &&& req.spec_id() == data.id@
                &&& same_uri(req.spec_uri(), data.uri)
                &&& req.spec_body() == body@
                &&& sent.part == old(self).part()
                &&& sent.id@ == data.id@
                &&& same_uri(sent.uri, data.uri)
                &&& sent.bytes == body@.len()
                &&& final(self).part().0 == old(self).part().0 + 1
                &&& final(self).dispatched() == old(self).dispatched().push(old(self).part().0)
                &&& final(self).buffer().pending() == old(self).buffer().pending().push(
                    (PendingPart { part: old(self).part(), bytes: body@.len() as usize }),
                )
            }),
    {
        if self.part.0 > AWS_MAX_PART_COUNT {
            return Err(Error::upload(UploadViolation::TooManyParts));
        }
        let n = self.part;
        let bytes = body.size();
        proof {
            let p = self.buffer.pending();
            let c = self.buffer.completed();
            assert(!number_in_pool(n.0, p, c)) by {
                if exists|i: int| 0 <= i < p.len() && p[i].part.0 == n.0 {
                    let i = choose|i: int| 0 <= i < p.len() && p[i].part.0 == n.0;
                    assert(1 <= p[i].part.0 < self.part.0);
                }
                if exists|j: int| 0 <= j < c.len() && c[j].part_number.0 == n.0 {
                    let j = choose|j: int| 0 <= j < c.len() && c[j].part_number.0 == n.0;
                    assert(1 <= c[j].part_number.0 < self.part.0);
                }
            }
        }
        self.buffer.start_send(PendingPart { part: n, bytes });
        self.part.incr();
        proof {
            self.dispatched@ = self.dispatched@.push(n.0);
            assert(counts_from_one(self.dispatched@)) by {
                assert forall|i: int| 0 <= i < self.dispatched@.len() implies #[trigger] self.dispatched@[i]
                    == i + 1 by {
                    if i < self.dispatched@.len() - 1 {
                        assert(self.dispatched@[i] == old(self).dispatched()[i]);
                    }
                }
            }
            let p = self.buffer.pending();
            assert forall|i: int| 0 <= i < p.len() implies 1 <= #[trigger] p[i].part.0 < self.part.0 by {
                if i < p.len() - 1 {
                    assert(p[i] == old(self).buffer().pending()[i]);
                }
            }
        }
        let data = self.data.as_ref().unwrap();
        let sent = UploadSent { id: data.get_id(), uri: data.get_uri(), part: n, bytes: bytes as u64 };
        let req = UploadPartRequest::new(data, body, n);
        Ok((req, sent))
    }

    /// Records that part `part` of the active upload succeeded with tag `etag`;
    /// false, and nothing changes, where no such part is in flight.
    pub fn on_part_uploaded(&mut self, part: PartNumber, etag: EntityTag) -> (r: bool)
        requires
            old(self).wf(),
            old(self).data() is Some,
        ensures
            final(self).wf(),
            final(self).data() == old(self).data(),
            final(self).creating() == old(self).creating(),
            final(self).next_uri() == old(self).next_uri(),
            final(self).completing() == old(self).completing(),
            final(self).part() == old(self).part(),
            final(self).dispatched() == old(self).dispatched(),
            final(self).buffer().capacity() == old(self).buffer().capacity(),
            r == (exists|i: int|
                0 <= i < old(self).buffer().pending().len() && old(self).buffer().pending()[i].part
                    == part),
            !r ==> final(self).buffer().pending() == old(self).buffer().pending(),
            !r ==> final(self).buffer().completed() == old(self).buffer().completed(),
            r ==> ({
                let c = final(self).buffer().completed();
                &&& c.len() == old(self).buffer().completed().len() + 1
                &&& c.drop_last() == old(self).buffer().completed()
                &&& c.last().part_number == part
                &&& c.last().etag == etag
                &&& c.last().id@ == old(self).data()->0.id@
                &&& exists|i: int|
                    0 <= i < old(self).buffer().pending().len() && old(self).buffer().pending()[i].part
                        == part && final(self).buffer().pending() == old(self).buffer().pending().remove(i)
                        && c.last().part_size == old(self).buffer().pending()[i].bytes
            }),
    {
        let id = self.data.as_ref().unwrap().get_id();
        let done = self.buffer.complete_part(id, part, etag);
        proof {
            let op = old(self).buffer().pending();
            let oc = old(self).buffer().completed();
            let p = self.buffer.pending();
            let c = self.buffer.completed();
            if done {
                let i = choose|i: int|
                    0 <= i < op.len() && op[i].part == part && p == op.remove(i)
                        && c == oc.push(
                        (CompletedPart { id, etag, part_number: part, part_size: op[i].bytes }),
                    );
                op.remove_ensures(i);
                assert(c.drop_last() =~= oc);
                assert forall|k: int| 0 <= k < p.len() implies 1 <= #[trigger] p[k].part.0
                    < self.part.0 by {
                    if k < i {
                        assert(p[k] == op[k]);
                    } else {
                        assert(p[k] == op[k + 1]);
                    }
                }
                assert forall|k: int| 0 <= k < c.len() implies 1 <= #[trigger] c[k].part_number.0
                    < self.part.0 by {
                    if k < c.len() - 1 {
                        assert(c[k] == oc[k]);
                    } else {
                        assert(1 <= op[i].part.0 < self.part.0);
                    }
                }
            }
        }
        done
    }

    /// Records that part `part` of the active upload failed with `message`.
    /// The error carries the upload's ID, destination, that part number and
    /// the parts completed so far; parts in flight are dropped, and the writer
    /// is done, leaving the upload open at the backend for resuming or
    /// aborting.
    pub fn on_part_failed(&mut self, part: PartNumber, message: String) -> (r: Error)
        requires
            old(self).wf(),
            old(self).data() is Some,
        ensures
            final(self).wf(),
            final(self).spec_is_terminated(),
            !final(self).completing(),
            final(self).buffer().pending().len() == 0,
            final(self).buffer().completed().len() == 0,
            r.repr matches ErrorRepr::Transport { failed: Some(f), message: m } && f.id@ == old(self).data()->0.id@ && same_uri(f.uri, old(self).data()->0.uri) && f.part == Some(part)
                && f.completed@ == old(self).buffer().completed() && m == message,
    {
        let data = self.data.take().unwrap();
        let completed = self.buffer.take_completed();
        self.buffer.drop_pending();
        self.part = PartNumber::first();
        self.next_uri = None;
        self.creating = None;
        self.completing = false;
        proof {
            self.dispatched@ = Seq::empty();
        }
        let failed = FailedUpload::new(data.get_id(), data.get_uri(), Some(part), completed);
        Error::transport(Some(failed), message)
    }

    /// Builds the request to complete the active upload once every dispatched
    /// part has resolved: the completed parts, sorted strictly ascending by
    /// part number. Nothing where no upload is active.
    pub fn complete_request(&mut self) -> (r: Option<CompleteRequest>)
        requires
            old(self).wf(),
            old(self).buffer().pending().len() == 0,
            !old(self).completing(),
        ensures
            final(self).wf(),
            final(self).data() == old(self).data(),
            final(self).creating() == old(self).creating(),
            final(self).next_uri() == old(self).next_uri(),
            final(self).part() == old(self).part(),
            final(self).dispatched() == old(self).dispatched(),
            r.is_none() == old(self).data() is None,
            r.is_none() ==> *final(self) == *old(self),
            r.is_some() ==> ({
                let req = r->Some_0;
                let data = old(self).data()->0;
                &&& final(self).completing()
                &&& final(self).buffer().completed().len() == 0
                &&& final(self).buffer().pending().len() == 0
                &&& req.spec_id() == data.id@
                &&& same_uri(req.spec_uri(), data.uri)
                &&& strictly_sorted_by_number(req.spec_parts())
                &&& req.spec_parts().to_multiset() == old(self).buffer().completed().to_multiset()
            }),
    {
        if self.data.is_none() {
            return None;
        }
        let mut parts = self.buffer.take_completed();
        parts.sort_ascending();
        proof {
            lemma_rearranged_parts_distinct(old(self).buffer().completed(), parts@);
            lemma_sorted_parts_strictly_ascending(parts@);
        }
        self.completing = true;
        let req = CompleteRequest::new(self.data.as_ref().unwrap(), parts);
        Some(req)
    }

    /// Records the outcome of the request to complete the active upload. On
    /// success the receipt names the object and its tag, and `next`, the
    /// destination that follows, becomes the next upload's; the writer is then
    /// done exactly when there is none. On failure the error carries the
    /// upload's context and the writer is done.
    pub fn on_completed(&mut self, result: Result<EntityTag, String>, next: Option<ObjectUri>) -> (r:
        Result<CompletedUpload, Error>)
        requires
            old(self).wf(),
            old(self).completing(),
        ensures
            final(self).wf(),
            final(self).data() is None,
            final(self).creating() is None,
            !final(self).completing(),
            final(self).part().0 == 1,
            final(self).dispatched().len() == 0,
            r.is_ok() == result.is_ok(),
            result.is_ok() ==> final(self).next_uri() == next && same_uri(
                r->Ok_0.uri,
                old(self).data()->0.uri,
            ) && r->Ok_0.etag == result->Ok_0,
            result.is_ok() ==> (final(self).spec_is_terminated() <==> next is None),
            result.is_err() ==> final(self).spec_is_terminated() && (r->Err_0.repr matches ErrorRepr::Transport {
                failed: Some(f),
                message,
            } && f.id@ == old(self).data()->0.id@ && same_uri(f.uri, old(self).data()->0.uri)
                && f.part is None && message == result->Err_0),
    {
        let data = self.data.take().unwrap();
        self.completing = false;
        self.part = PartNumber::first();
        proof {
            self.dispatched@ = Seq::empty();
        }
        match result {
            Ok(etag) => {
                self.next_uri = next;
                Ok(CompletedUpload::new(data.get_uri(), etag))
            },
            Err(message) => {
                self.next_uri = None;
                let failed = FailedUpload::new(
                    data.get_id(),
                    data.get_uri(),
                    None,
                    CompletedParts::new(),
                );
                Err(Error::transport(Some(failed), message))
            },
        }
    }
}

/// Within any upload, the parts dispatched so far are numbered `1, 2, ..., k`
/// in the order they were dispatched, with `k` at most the largest part count.
pub proof fn lemma_dispatched_numbers(u: Upload)
    requires
        u.wf(),
    ensures
        u.dispatched().len() <= AWS_MAX_PART_COUNT,
        forall|i: int| 0 <= i < u.dispatched().len() ==> #[trigger] u.dispatched()[i] == i + 1,
{
}

/// The pending pool of an upload never holds more parts in flight than its
/// capacity.
pub proof fn lemma_in_flight_bounded(u: Upload)
    requires
        u.wf(),
    ensures
        u.buffer().capacity() is Some ==> u.buffer().pending().len() <= u.buffer().capacity()->0,
{
}

} // verus!
