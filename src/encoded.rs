//! The encoded layer: items go into an encoder until a part is due, parts go
//! to the upload layer, and the object is completed on request.
use vstd::prelude::*;
use crate::codec::PartEncoder;
use crate::error::{Error, ErrorRepr, UploadViolation};
use crate::limits::{AWS_MAX_PART_COUNT, AWS_MIN_PART_SIZE};
use crate::request::{CompleteRequest, CreateRequest, UploadPartRequest};
use crate::parts::strictly_sorted_by_number;
use crate::pool::PendingPart;
use crate::state::{Status, TargetPart, TargetUpload, UploadState, part_is_due, sat_add, upload_is_due};
use crate::types::{CompletedUpload, EntityTag, PartNumber, UploadData, UploadId};
use crate::upload::{Upload, UploadAction};
use crate::uri::{ObjectUri, same_uri};

verus! {

/// What the driver of an encoded upload must do next.
#[derive(Debug)]
pub enum EncodedAction {
    /// Send this request to create an upload and report its outcome; then ask
    /// again.
    Create(CreateRequest),
    /// Send this part and report its outcome when it resolves.
    Send(UploadPartRequest),
    /// Send this request to complete the object and report its outcome.
    Complete(CompleteRequest),
    /// Wait until a request in flight resolves, then ask again.
    Wait,
    /// Nothing is due; go on.
    Ready,
    /// There was no object to complete.
    Done,
}

/// An upload that takes items, encodes them into parts of a target size, and
/// completes objects of a target size.
pub struct EncodedUpload<E> {
    upload: Upload,
    encoder: E,
    target_upload: TargetUpload,
    target_part: TargetPart,
    state: UploadState,
    empty: bool,
}

impl<E: PartEncoder> EncodedUpload<E> {
    /// The upload layer.
    pub closed spec fn upload(&self) -> Upload {
        self.upload
    }

    /// The encoder of the current part.
    pub closed spec fn encoder(&self) -> E {
        self.encoder
    }

    /// The counters.
    pub closed spec fn state(&self) -> UploadState {
        self.state
    }

    /// When an object is due.
    pub closed spec fn target_upload(&self) -> TargetUpload {
        self.target_upload
    }

    /// When a part is due.
    pub closed spec fn target_part(&self) -> TargetPart {
        self.target_part
    }

    /// Whether no item was encoded into the current part.
    pub closed spec fn empty(&self) -> bool {
        self.empty
    }

    /// The invariant of the encoded layer.
    pub open spec fn wf(&self) -> bool {
        &&& self.upload().wf()
        &&& self.target_upload().wf()
        &&& self.target_part().wf()
        &&& self.encoder().encoded().len() >= self.state().part_bytes
        &&& self.empty() ==> self.state().part_bytes == 0 && self.state().part_items == 0
    }

    /// An encoded upload to `first`, if given, that starts from `encoder`.
    pub fn new(
        encoder: E,
        target_upload: TargetUpload,
        target_part: TargetPart,
        first: Option<ObjectUri>,
    ) -> (r: EncodedUpload<E>)
        requires
            target_upload.wf(),
            target_part.wf(),
        ensures
            r.wf(),
            r.empty(),
            r.encoder() == encoder,
            r.target_upload() == target_upload,
            r.target_part() == target_part,
            r.upload().data() is None,
            r.upload().creating() is None,
            r.upload().next_uri() == first,
            r.state().total_items == 0 && r.state().total_parts == 0 && r.state().total_bytes == 0,
    {
        EncodedUpload {
            upload: Upload::new(target_upload.capacity, first),
            encoder,
            target_upload,
            target_part,
            state: UploadState::new(),
            empty: true,
        }
    }

    /// Whether `after` has the same encoder, counters and targets as `self`.
    pub open spec fn same_but_upload(&self, after: Self) -> bool {
        &&& after.encoder() == self.encoder()
        &&& after.state() == self.state()
        &&& after.empty() == self.empty()
        &&& after.target_upload() == self.target_upload()
        &&& after.target_part() == self.target_part()
    }

    /// Whether `req` completes the active upload of `self`, leaving `after`.
    pub open spec fn completes(&self, after: Self, req: CompleteRequest) -> bool {
        let u = self.upload();
        &&& self.same_but_upload(after)
        &&& after.upload().completing()
        &&& after.upload().data() == u.data()
        &&& after.upload().next_uri() == u.next_uri()
        &&& after.upload().part() == u.part()
        &&& after.upload().buffer().completed().len() == 0
        &&& after.upload().buffer().pending().len() == 0
        &&& req.spec_id() == u.data()->0.id@
        &&& same_uri(req.spec_uri(), u.data()->0.uri)
        &&& strictly_sorted_by_number(req.spec_parts())
        &&& req.spec_parts().to_multiset() == u.buffer().completed().to_multiset()
    }

    /// Whether `req` sends the current part of `self` as the next part of the
    /// active upload, leaving `after`.
    pub open spec fn sends(&self, after: Self, req: UploadPartRequest) -> bool {
        let u = self.upload();
        &&& req.spec_body() == self.encoder().encoded()
        &&& req.spec_part_number() == u.part()
        &&& req.spec_id() == u.data()->0.id@
        &&& same_uri(req.spec_uri(), u.data()->0.uri)
        &&& after.empty()
        &&& after.encoder().encoded().len() == 0
        &&& after.state().part_bytes == 0
        &&& after.state().part_items == 0
        &&& after.state().part == Some(u.part())
        &&& after.state().total_parts == sat_add(self.state().total_parts, 1)
        &&& after.state().total_bytes == self.state().total_bytes
        &&& after.state().total_items == self.state().total_items
        &&& after.target_upload() == self.target_upload()
        &&& after.target_part() == self.target_part()
        &&& after.upload().data() == u.data()
        &&& after.upload().creating() == u.creating()
        &&& after.upload().next_uri() == u.next_uri()
        &&& !after.upload().completing()
        &&& after.upload().part().0 == u.part().0 + 1
        &&& after.upload().dispatched() == u.dispatched().push(u.part().0)
        &&& after.upload().buffer().pending() == u.buffer().pending().push(
            (PendingPart { part: u.part(), bytes: req.spec_body().len() as usize }),
        )
        &&& after.upload().buffer().completed() == u.buffer().completed()
    }

    /// What moving the current part on does, case by case: the creation of
    /// an upload where none is active; waiting while one is being created or
    /// completed, or while the pool is full; completing an upload that holds
    /// the largest number of parts, so the part goes to the next one; else
    /// sending the part, unless the encoder fails, which leaves the upload
    /// layer as it was.
    pub open spec fn moves_part(&self, after: Self, r: Result<EncodedAction, Error>) -> bool {
        let u = self.upload();
        if u.data() is None {
            if u.creating() is Some {
                (r matches Ok(EncodedAction::Wait)) && after == *self
            } else if u.next_uri() is Some {
                &&& (r matches Ok(EncodedAction::Create(req)) && same_uri(
                    req.spec_uri(),
                    u.next_uri()->0,
                ))
                &&& self.same_but_upload(after)
                &&& after.upload().creating() == u.next_uri()
                &&& after.upload().next_uri() is None
                &&& after.upload().data() is None
                &&& after.upload().part() == u.part()
                &&& after.upload().buffer() == u.buffer()
            } else {
                (r matches Err(e) && e.repr == (ErrorRepr::Upload {
                    violation: UploadViolation::MissingNextUri,
                })) && after == *self
            }
        } else if u.completing() {
            (r matches Ok(EncodedAction::Wait)) && after == *self
        } else if u.part().0 > AWS_MAX_PART_COUNT {
            if u.buffer().pending().len() > 0 {
                (r matches Ok(EncodedAction::Wait)) && after == *self
            } else {
                r matches Ok(EncodedAction::Complete(req)) && self.completes(after, req)
            }
        } else if !u.buffer().spec_is_ready() {
            (r matches Ok(EncodedAction::Wait)) && after == *self
        } else {
            match r {
                Ok(EncodedAction::Send(req)) => self.sends(after, req),
                Err(e) => e.repr is Encoding && after.upload() == u && after.target_upload()
                    == self.target_upload() && after.target_part() == self.target_part(),
                _ => false,
            }
        }
    }

    /// Encodes one item into the current part and reports the counters and
    /// what is due.
    pub fn start_send(&mut self, item: &[u8]) -> (r: Result<Status, Error>)
        requires
            old(self).wf(),
        ensures
            final(self).wf(),
            final(self).upload() == old(self).upload(),
            final(self).target_upload() == old(self).target_upload(),
            final(self).target_part() == old(self).target_part(),
            r.is_err() ==> r->Err_0.repr is Encoding && final(self).state() == old(self).state()
                && final(self).empty() == old(self).empty() && final(self).encoder().encoded()
                == old(self).encoder().encoded(),
            r.is_ok() ==> ({
                let n = E::encoding_of(item@).len() as u64;
                &&& final(self).encoder().encoded() == old(self).encoder().encoded() + E::encoding_of(item@)
                &&& !final(self).empty()
                &&& final(self).state().part_bytes == sat_add(old(self).state().part_bytes, n)
                &&& final(self).state().total_bytes == sat_add(old(self).state().total_bytes, n)
                &&& final(self).state().part_items == sat_add(old(self).state().part_items, 1)
                &&& final(self).state().total_items == sat_add(old(self).state().total_items, 1)
                &&& final(self).state().total_parts == old(self).state().total_parts
                &&& final(self).state().part == old(self).state().part
            }),
            r.is_ok() ==> r->Ok_0.should_upload == part_is_due(final(self).state(), final(self).target_part())
                && r->Ok_0.should_complete == upload_is_due(final(self).state(), final(self).target_upload())
                && r->Ok_0.items == final(self).state().total_items
                && r->Ok_0.parts == final(self).state().total_parts
                && r->Ok_0.bytes == final(self).state().total_bytes
                && r->Ok_0.part_bytes == final(self).state().part_bytes,
    {
        match self.encoder.encode(item) {
            Ok(n) => {
                self.state.update_encode(n);
                self.empty = false;
                Ok(self.state.to_status(&self.target_upload, &self.target_part))
            },
            Err(e) => Err(e),
        }
    }

    /// The counters and what is due, without encoding anything.
    pub fn status(&self) -> (r: Status)
        ensures
            r.should_upload == part_is_due(self.state(), self.target_part()),
            r.should_complete == upload_is_due(self.state(), self.target_upload()),
            r.items == self.state().total_items,
            r.parts == self.state().total_parts,
            r.bytes == self.state().total_bytes,
            r.part_bytes == self.state().part_bytes,
    {
        self.state.to_status(&self.target_upload, &self.target_part)
    }

    /// Forgets the current part after its bytes were lost.
    fn drop_part(&mut self)
        ensures
            final(self).state().part_bytes == 0,
            final(self).state().part_items == 0,
            final(self).empty(),
            final(self).upload() == old(self).upload(),
            final(self).encoder() == old(self).encoder(),
            final(self).target_upload() == old(self).target_upload(),
            final(self).target_part() == old(self).target_part(),
    {
        self.state.part_bytes = 0;
        self.state.part_items = 0;
        self.empty = true;
    }

    /// Moves the current part on, as `moves_part` states.
    fn move_part(&mut self) -> (r: Result<EncodedAction, Error>)
        requires
            old(self).wf(),
        ensures
            final(self).wf(),
            old(self).moves_part(*final(self), r),
    {
        if self.upload.upload_data().is_none() {
            return match self.upload.poll_ready() {
                UploadAction::Create(req) => Ok(EncodedAction::Create(req)),
                UploadAction::Wait => Ok(EncodedAction::Wait),
                _ => Err(Error::upload(UploadViolation::MissingNextUri)),
            };
        }
        if self.upload.is_completing() {
            return Ok(EncodedAction::Wait);
        }
        if self.upload.next_part_number().0 > AWS_MAX_PART_COUNT {
            if !self.upload.is_flushed() {
                return Ok(EncodedAction::Wait);
            }
            return match self.upload.complete_request() {
                Some(req) => Ok(EncodedAction::Complete(req)),
                None => Ok(EncodedAction::Wait),
            };
        }
        match self.upload.poll_ready() {
            UploadAction::Ready => {},
            _ => return Ok(EncodedAction::Wait),
        }
        match self.encoder.flush() {
            Ok(()) => {},
            Err(e) => return Err(e),
        }
        let mut finished = match self.encoder.clear() {
            Ok(fresh) => fresh,
            Err(e) => return Err(e),
        };
        std::mem::swap(&mut finished, &mut self.encoder);
        let body = match finished.into_body() {
            Ok(b) => b,
            Err(e) => {
                self.drop_part();
                return Err(e);
            },
        };
        match self.upload.start_send(body) {
            Ok((req, sent)) => {
                self.state.update_sent(sent.id, sent.part);
                self.empty = true;
                Ok(EncodedAction::Send(req))
            },
            Err(e) => {
                self.drop_part();
                Err(e)
            },
        }
    }

    /// Moves the current part on if it is due; a part sent here holds at
    /// least the backend's smallest part size.
    pub fn poll_ready(&mut self) -> (r: Result<EncodedAction, Error>)
        requires
            old(self).wf(),
        ensures
            final(self).wf(),
            !part_is_due(old(self).state(), old(self).target_part()) ==> (r matches Ok(
                EncodedAction::Ready,
            )) && *final(self) == *old(self),
            part_is_due(old(self).state(), old(self).target_part()) ==> old(self).moves_part(
                *final(self),
                r,
            ),
            r matches Ok(EncodedAction::Send(req)) ==> req.spec_body().len() >= AWS_MIN_PART_SIZE,
    {
        if self.state.should_upload(&self.target_part) {
            proof {
                crate::state::lemma_due_part_is_large(self.state, self.target_part);
            }
            self.move_part()
        } else {
            Ok(EncodedAction::Ready)
        }
    }

    /// Moves the current part on if it holds any item; otherwise waits until
    /// every part sent has resolved.
    pub fn poll_flush(&mut self) -> (r: Result<EncodedAction, Error>)
        requires
            old(self).wf(),
        ensures
            final(self).wf(),
            !old(self).empty() ==> old(self).moves_part(*final(self), r),
            old(self).empty() ==> *final(self) == *old(self) && (if old(self).upload().buffer().pending().len() == 0 {
                r matches Ok(EncodedAction::Ready)
            } else {
                r matches Ok(EncodedAction::Wait)
            }),
    {
        if !self.empty {
            return self.move_part();
        }
        if self.upload.is_flushed() {
            Ok(EncodedAction::Ready)
        } else {
            Ok(EncodedAction::Wait)
        }
    }

    /// Moves the current part on if it holds any item, however small; once
    /// every part has resolved, hands out the request that completes the
    /// object, with its parts in ascending order. Where no upload is active,
    /// because no item came, there is nothing to complete.
    pub fn poll_complete(&mut self) -> (r: Result<EncodedAction, Error>)
        requires
            old(self).wf(),
        ensures
            final(self).wf(),
            !old(self).empty() ==> old(self).moves_part(*final(self), r),
            old(self).empty() && old(self).upload().data() is None ==> (r matches Ok(
                EncodedAction::Done,
            )) && *final(self) == *old(self),
            old(self).empty() && old(self).upload().data() is Some && (old(self).upload().completing()
                || old(self).upload().buffer().pending().len() > 0) ==> (r matches Ok(
                EncodedAction::Wait,
            )) && *final(self) == *old(self),
            old(self).empty() && old(self).upload().data() is Some && !old(self).upload().completing()
                && old(self).upload().buffer().pending().len() == 0 ==> (r matches Ok(
                EncodedAction::Complete(req),
            ) && old(self).completes(*final(self), req)),
    {
        if !self.empty {
            return self.move_part();
        }
        proof {
            let p = self.upload.buffer().pending();
            if self.upload.data() is None && p.len() > 0 {
                assert(1 <= p[0].part.0 < self.upload.part().0);
            }
        }
        if self.upload.is_completing() || !self.upload.is_flushed() {
            return Ok(EncodedAction::Wait);
        }
        match self.upload.complete_request() {
            Some(req) => Ok(EncodedAction::Complete(req)),
            None => Ok(EncodedAction::Done),
        }
    }

    /// Records the outcome of the request to create an upload: with a
    /// nonempty ID it becomes the active upload, numbered from 1.
    pub fn on_created(&mut self, result: Result<UploadId, String>) -> (r: Result<(), Error>)
        requires
            old(self).wf(),
            old(self).upload().creating() is Some,
        ensures
            final(self).wf(),
            old(self).same_but_upload(*final(self)),
            final(self).upload().creating() is None,
            !final(self).upload().completing(),
            final(self).upload().next_uri() == old(self).upload().next_uri(),
            final(self).upload().part().0 == 1,
            final(self).upload().dispatched().len() == 0,
            r.is_ok() == (result.is_ok() && result->Ok_0@.len() > 0),
            r.is_ok() ==> final(self).upload().data() == Some(
                (UploadData { id: result->Ok_0, uri: old(self).upload().creating()->0 }),
            ),
            r.is_err() ==> final(self).upload().data() is None,
            result.is_ok() && r.is_err() ==> r->Err_0.repr is Missing,
            result.is_err() ==> (r->Err_0.repr matches ErrorRepr::Transport { failed: Some(f), message }
                && f.part is None && f.id@.len() == 0 && f.uri == old(self).upload().creating()->0
                && message == result->Err_0),
    {
        self.upload.on_created(result)
    }

    /// Records that part `part` succeeded with tag `etag`: it leaves the parts
    /// in flight and joins the completed ones. False, and nothing changes,
    /// where no such part is in flight.
    pub fn on_part_uploaded(&mut self, part: PartNumber, etag: EntityTag) -> (r: bool)
        requires
            old(self).wf(),
            old(self).upload().data() is Some,
        ensures
            final(self).wf(),
            old(self).same_but_upload(*final(self)),
            final(self).upload().data() == old(self).upload().data(),
            final(self).upload().creating() == old(self).upload().creating(),
            final(self).upload().next_uri() == old(self).upload().next_uri(),
            final(self).upload().completing() == old(self).upload().completing(),
            final(self).upload().part() == old(self).upload().part(),
            final(self).upload().dispatched() == old(self).upload().dispatched(),
            r == (exists|i: int|
                0 <= i < old(self).upload().buffer().pending().len()
                    && old(self).upload().buffer().pending()[i].part == part),
            !r ==> final(self).upload().buffer().pending() == old(self).upload().buffer().pending(),
            !r ==> final(self).upload().buffer().completed() == old(self).upload().buffer().completed(),
            r ==> ({
                let c = final(self).upload().buffer().completed();
                let op = old(self).upload().buffer().pending();
                &&& c.len() == old(self).upload().buffer().completed().len() + 1
                &&& c.drop_last() == old(self).upload().buffer().completed()
                &&& c.last().part_number == part
                &&& c.last().etag == etag
                &&& c.last().id@ == old(self).upload().data()->0.id@
                &&& exists|i: int|
                    0 <= i < op.len() && op[i].part == part && final(self).upload().buffer().pending()
                        == op.remove(i) && c.last().part_size == op[i].bytes
            }),
    {
        self.upload.on_part_uploaded(part, etag)
    }

    /// Records that part `part` failed with `message`; the error carries the
    /// upload's ID, destination, that part number and the completed parts,
    /// and the writer is done.
    pub fn on_part_failed(&mut self, part: PartNumber, message: String) -> (r: Error)
        requires
            old(self).wf(),
            old(self).upload().data() is Some,
        ensures
            final(self).wf(),
            old(self).same_but_upload(*final(self)),
            final(self).upload().spec_is_terminated(),
            !final(self).upload().completing(),
            final(self).upload().buffer().pending().len() == 0,
            final(self).upload().buffer().completed().len() == 0,
            r.repr matches ErrorRepr::Transport { failed: Some(f), message: m } && f.id@ == old(self).upload().data()->0.id@
                && same_uri(f.uri, old(self).upload().data()->0.uri) && f.part == Some(part)
                && f.completed@ == old(self).upload().buffer().completed() && m == message,
    {
        self.upload.on_part_failed(part, message)
    }

    /// Records the outcome of the request to complete the object. On success
    /// the next object goes to `next`; where no item is waiting the counters
    /// start again and the encoder is made new for that object, and where a
    /// part is waiting, as after an upload that reached the largest part
    /// count, it stays and counts toward the next object.
    pub fn on_completed(&mut self, result: Result<EntityTag, String>, next: Option<ObjectUri>) -> (r:
        Result<CompletedUpload, Error>)
        requires
            old(self).wf(),
            old(self).upload().completing(),
        ensures
            final(self).wf(),
            final(self).target_upload() == old(self).target_upload(),
            final(self).target_part() == old(self).target_part(),
            final(self).upload().data() is None,
            final(self).upload().creating() is None,
            final(self).upload().part().0 == 1,
            result.is_err() ==> r.is_err() && final(self).upload().spec_is_terminated()
                && (r->Err_0.repr matches ErrorRepr::Transport { failed: Some(f), message }
                && f.id@ == old(self).upload().data()->0.id@ && same_uri(f.uri, old(self).upload().data()->0.uri)
                && f.part is None && message == result->Err_0),
            result.is_ok() ==> final(self).upload().next_uri() == next,
            result.is_ok() ==> (final(self).upload().spec_is_terminated() <==> next is None),
            r.is_ok() ==> r->Ok_0.etag == result->Ok_0 && same_uri(r->Ok_0.uri, old(self).upload().data()->0.uri),
            r.is_ok() && old(self).empty() ==> final(self).empty() && final(self).state().total_items == 0
                && final(self).state().total_parts == 0 && final(self).state().total_bytes == 0,
            r.is_ok() && !old(self).empty() ==> !final(self).empty() && final(self).encoder() == old(self).encoder()
                && final(self).state().part_bytes == old(self).state().part_bytes
                && final(self).state().part_items == old(self).state().part_items
                && final(self).state().total_bytes == old(self).state().part_bytes
                && final(self).state().total_items == old(self).state().part_items
                && final(self).state().total_parts == 0,
            result.is_ok() && r.is_err() ==> r->Err_0.repr is Encoding,
    {
        let receipt = match self.upload.on_completed(result, next) {
            Ok(c) => c,
            Err(e) => return Err(e),
        };
        if !self.empty {
            let part_bytes = self.state.part_bytes;
            let part_items = self.state.part_items;
            self.state = UploadState::new();
            self.state.part_bytes = part_bytes;
            self.state.part_items = part_items;
            self.state.total_bytes = part_bytes;
            self.state.total_items = part_items;
            return Ok(receipt);
        }
        match self.encoder.restore() {
            Ok(fresh) => {
                self.encoder = fresh;
                self.state = UploadState::new();
                self.empty = true;
                Ok(receipt)
            },
            Err(e) => Err(e),
        }
    }

    /// The active upload, if one is.
    pub fn upload_data(&self) -> (r: Option<&UploadData>)
        ensures
            r == match self.upload().data() {
                Some(d) => Some(&d),
                None => None,
            },
    {
        self.upload.upload_data()
    }

    /// Whether the creation of an upload was requested and has not resolved.
    pub fn is_creating(&self) -> (r: bool)
        ensures
            r == self.upload().creating() is Some,
    {
        self.upload.is_creating()
    }

    /// Whether the request to complete the active upload is out.
    pub fn is_completing(&self) -> (r: bool)
        ensures
            r == self.upload().completing(),
    {
        self.upload.is_completing()
    }

    /// Whether the writer is done: no upload active or being created, and no
    /// destination left.
    pub fn is_terminated(&self) -> (r: bool)
        ensures
            r == self.upload().spec_is_terminated(),
    {
        self.upload.is_terminated()
    }
}

} // verus!
