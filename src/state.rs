//! Size targets of objects and parts, and the counters of an upload in
//! progress.
use vstd::prelude::*;
use crate::limits::{
    AWS_MAX_OBJECT_SIZE,
    AWS_MAX_PART_COUNT,
    AWS_MIN_PART_SIZE,
    DEFAULT_MAX_OBJECT_SIZE,
    DEFAULT_MAX_PART_SIZE,
    DEFAULT_MAX_TASKS,
    clamped_part_size,
    clamped_upload_size,
    part_size,
    upload_size,
};
use crate::types::{PartNumber, UploadId};

verus! {

/// When an object counts as complete, and how many parts may be in flight.
#[derive(Debug, Clone, Copy, PartialEq, Eq, Structural)]
pub struct TargetUpload {
    /// Target size of the object in bytes; at most the largest object size.
    pub upload_bytes: u64,
    /// Target number of parts; at most the largest part count.
    pub upload_parts: u64,
    /// Limit to the parts in flight at once; none means no limit.
    pub capacity: Option<usize>,
}

impl TargetUpload {
    /// Whether the targets lie within the backend's limits.
    pub open spec fn wf(&self) -> bool {
        self.upload_bytes <= AWS_MAX_OBJECT_SIZE && 1 <= self.upload_parts <= AWS_MAX_PART_COUNT
    }

    /// Objects of 5 GiB, the largest part count, and ten parts in flight.
    pub fn new() -> (r: TargetUpload)
        ensures
            r.wf(),
            r.upload_bytes == DEFAULT_MAX_OBJECT_SIZE,
            r.upload_parts == AWS_MAX_PART_COUNT,
            r.capacity == Some(DEFAULT_MAX_TASKS),
    {
        TargetUpload {
            upload_bytes: DEFAULT_MAX_OBJECT_SIZE,
            upload_parts: AWS_MAX_PART_COUNT as u64,
            capacity: Some(DEFAULT_MAX_TASKS),
        }
    }

    /// Sets the target size, clamped to the largest object size.
    pub fn target_bytes(self, limit: u64) -> (r: TargetUpload)
        ensures
            r.upload_bytes == clamped_upload_size(limit as int),
            r.upload_parts == self.upload_parts,
            r.capacity == self.capacity,
    {
        TargetUpload { upload_bytes: upload_size(limit), ..self }
    }

    /// Sets the target number of parts, clamped into one to the largest count.
    pub fn target_parts(self, limit: u64) -> (r: TargetUpload)
        ensures
            r.upload_parts == (if limit < 1 {
                1
            } else if limit > AWS_MAX_PART_COUNT {
                AWS_MAX_PART_COUNT as u64
            } else {
                limit
            }),
            r.upload_bytes == self.upload_bytes,
            r.capacity == self.capacity,
    {
        let upload_parts: u64 = if limit < 1 {
            1
        } else if limit > AWS_MAX_PART_COUNT as u64 {
            AWS_MAX_PART_COUNT as u64
        } else {
            limit
        };
        TargetUpload { upload_parts, ..self }
    }

    /// Sets the limit to parts in flight.
    pub fn max_capacity(self, limit: Option<usize>) -> (r: TargetUpload)
        ensures
            r.capacity == limit,
            r.upload_bytes == self.upload_bytes,
            r.upload_parts == self.upload_parts,
    {
        TargetUpload { capacity: limit, ..self }
    }
}

/// When a part counts as complete.
#[derive(Debug, Clone, Copy, PartialEq, Eq, Structural)]
pub struct TargetPart {
    /// Target size of a part in bytes.
    pub part_bytes: u64,
    /// Target number of items in a part; reaching it ends a part that already
    /// holds `min_part_bytes`.
    pub part_items: u64,
    /// The fewest bytes of a part that ends on its item count.
    pub min_part_bytes: u64,
}

impl TargetPart {
    /// Whether the targets lie within the backend's limits.
    pub open spec fn wf(&self) -> bool {
        AWS_MIN_PART_SIZE <= self.part_bytes && AWS_MIN_PART_SIZE <= self.min_part_bytes
    }

    /// Parts of 10 MiB, with no target number of items.
    pub fn new() -> (r: TargetPart)
        ensures
            r.wf(),
            r.part_bytes == DEFAULT_MAX_PART_SIZE,
            r.part_items == u64::MAX,
            r.min_part_bytes == AWS_MIN_PART_SIZE,
    {
        TargetPart {
            part_bytes: DEFAULT_MAX_PART_SIZE,
            part_items: u64::MAX,
            min_part_bytes: AWS_MIN_PART_SIZE,
        }
    }

    /// Sets the target size of a part: below 5 MiB it is raised to 5 MiB,
    /// above 5 GiB lowered to 5 GiB.
    pub fn target_part_bytes(self, limit: u64) -> (r: TargetPart)
        ensures
            r.part_bytes == clamped_part_size(limit as int),
            r.part_items == self.part_items,
            r.min_part_bytes == self.min_part_bytes,
    {
        TargetPart { part_bytes: part_size(limit), ..self }
    }

    /// Sets the target number of items in a part.
    pub fn with_target_items(self, limit: u64) -> (r: TargetPart)
        ensures
            r.part_items == limit,
            r.part_bytes == self.part_bytes,
            r.min_part_bytes == self.min_part_bytes,
    {
        TargetPart { part_items: limit, ..self }
    }

    /// Sets the fewest bytes of a part that ends on its item count; never
    /// below 5 MiB.
    pub fn with_min_part_bytes(self, limit: u64) -> (r: TargetPart)
        ensures
            r.min_part_bytes == (if limit < AWS_MIN_PART_SIZE {
                AWS_MIN_PART_SIZE
            } else {
                limit
            }),
            r.part_bytes == self.part_bytes,
            r.part_items == self.part_items,
    {
        let min_part_bytes = if limit < AWS_MIN_PART_SIZE {
            AWS_MIN_PART_SIZE
        } else {
            limit
        };
        TargetPart { min_part_bytes, ..self }
    }
}

/// The counters of the object and the part being built.
#[derive(Debug)]
pub struct UploadState {
    /// The ID of the upload the last part went to.
    pub id: Option<UploadId>,
    /// The number of the last part sent.
    pub part: Option<PartNumber>,
    /// Bytes encoded into the current part.
    pub part_bytes: u64,
    /// Items encoded into the current part.
    pub part_items: u64,
    /// Bytes encoded into the object.
    pub total_bytes: u64,
    /// Items encoded into the object.
    pub total_items: u64,
    /// Parts sent for the object.
    pub total_parts: u64,
}

/// Whether the part being built should be sent.
pub open spec fn part_is_due(state: UploadState, target: TargetPart) -> bool {
    state.part_bytes >= target.part_bytes || (state.part_items >= target.part_items
        && state.part_bytes >= target.min_part_bytes)
}

/// Whether the object being built should be completed.
pub open spec fn upload_is_due(state: UploadState, target: TargetUpload) -> bool {
    state.total_bytes >= target.upload_bytes || state.total_parts >= target.upload_parts
}

impl UploadState {
    /// Counters at zero, with no upload and no part.
    pub fn new() -> (r: UploadState)
        ensures
            r.id is None,
            r.part is None,
            r.part_bytes == 0,
            r.part_items == 0,
            r.total_bytes == 0,
            r.total_items == 0,
            r.total_parts == 0,
    {
        UploadState {
            id: None,
            part: None,
            part_bytes: 0,
            part_items: 0,
            total_bytes: 0,
            total_items: 0,
            total_parts: 0,
        }
    }

    /// Counts one item of `bytes` bytes; the counters stop at their largest
    /// value.
    pub fn update_encode(&mut self, bytes: usize)
        ensures
            final(self).part_bytes == sat_add(old(self).part_bytes, bytes as u64),
            final(self).total_bytes == sat_add(old(self).total_bytes, bytes as u64),
            final(self).part_items == sat_add(old(self).part_items, 1),
            final(self).total_items == sat_add(old(self).total_items, 1),
            final(self).total_parts == old(self).total_parts,
            final(self).id == old(self).id,
            final(self).part == old(self).part,
    {
        let n = bytes as u64;
        self.part_bytes = self.part_bytes.saturating_add(n);
        self.total_bytes = self.total_bytes.saturating_add(n);
        self.part_items = self.part_items.saturating_add(1);
        self.total_items = self.total_items.saturating_add(1);
    }

    /// Counts a part sent to upload `id` as number `part`; the part counters
    /// start again from zero.
    pub fn update_sent(&mut self, id: UploadId, part: PartNumber)
        ensures
            final(self).id == Some(id),
            final(self).part == Some(part),
            final(self).part_bytes == 0,
            final(self).part_items == 0,
            final(self).total_parts == sat_add(old(self).total_parts, 1),
            final(self).total_bytes == old(self).total_bytes,
            final(self).total_items == old(self).total_items,
    {
        self.id = Some(id);
        self.part = Some(part);
        self.part_bytes = 0;
        self.part_items = 0;
        self.total_parts = self.total_parts.saturating_add(1);
    }

    /// Whether the part being built should be sent.
    pub fn should_upload(&self, target: &TargetPart) -> (r: bool)
        ensures
            r == part_is_due(*self, *target),
    {
        self.part_bytes >= target.part_bytes || (self.part_items >= target.part_items
            && self.part_bytes >= target.min_part_bytes)
    }

    /// Whether the object being built should be completed.
    pub fn should_complete(&self, target: &TargetUpload) -> (r: bool)
        ensures
            r == upload_is_due(*self, *target),
    {
        self.total_bytes >= target.upload_bytes || self.total_parts >= target.upload_parts
    }

    /// A snapshot of the counters and of what is due.
    pub fn to_status(&self, target_upload: &TargetUpload, target_part: &TargetPart) -> (r: Status)
        ensures
            r.id is Some == self.id is Some,
            r.id is Some ==> r.id->0@ == self.id->0@,
            r.part == self.part,
            r.items == self.total_items,
            r.parts == self.total_parts,
            r.bytes == self.total_bytes,
            r.part_bytes == self.part_bytes,
            r.should_upload == part_is_due(*self, *target_part),
            r.should_complete == upload_is_due(*self, *target_upload),
    {
        let id = match &self.id {
            Some(i) => Some(i.clone()),
            None => None,
        };
        Status {
            id,
            part: self.part,
            items: self.total_items,
            parts: self.total_parts,
            bytes: self.total_bytes,
            part_bytes: self.part_bytes,
            should_upload: self.should_upload(target_part),
            should_complete: self.should_complete(target_upload),
        }
    }
}

/// `a + b`, or the largest value where that does not fit.
pub open spec fn sat_add(a: u64, b: u64) -> u64 {
    if a + b > u64::MAX {
        u64::MAX
    } else {
        (a + b) as u64
    }
}

/// A snapshot returned after each item is encoded.
#[derive(Debug)]
pub struct Status {
    /// The ID of the upload being written to, once a part was sent.
    pub id: Option<UploadId>,
    /// The number of the last part sent.
    pub part: Option<PartNumber>,
    /// Items written to the object.
    pub items: u64,
    /// Parts sent for the object.
    pub parts: u64,
    /// Bytes written to the object.
    pub bytes: u64,
    /// Bytes written to the current part.
    pub part_bytes: u64,
    /// Whether the current part should be sent.
    pub should_upload: bool,
    /// Whether the object should be completed.
    pub should_complete: bool,
}

/// Once an object has as many parts as the backend allows, it is due for
/// completion, so that the next part goes to a new object.
pub proof fn lemma_full_upload_is_due(state: UploadState, target: TargetUpload)
    requires
        target.wf(),
        state.total_parts >= AWS_MAX_PART_COUNT,
    ensures
        upload_is_due(state, target),
{
}

/// A part that is due holds at least the backend's smallest part size.
pub proof fn lemma_due_part_is_large(state: UploadState, target: TargetPart)
    requires
        target.wf(),
        part_is_due(state, target),
    ensures
        state.part_bytes >= AWS_MIN_PART_SIZE,
{
}

} // verus!
