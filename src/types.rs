//! Identities assigned by the backend, and part numbers.
use vstd::prelude::*;
use vstd::string::*;
use crate::error::{Error, ErrorRepr};
use crate::uri::{ObjectUri, same_uri};

verus! {

/// The identifier that the backend assigns to an upload when it creates it.
#[derive(Debug)]
pub struct UploadId {
    id: String,
}

impl View for UploadId {
    type V = Seq<char>;

    closed spec fn view(&self) -> Seq<char> {
        self.id@
    }
}

impl UploadId {
    /// An upload ID with the given text.
    pub fn new(id: &str) -> (r: UploadId)
        ensures
            r@ == id@,
    {
        UploadId { id: String::from_str(id) }
    }

    /// The text of the ID.
    pub fn as_str(&self) -> (r: &str)
        ensures
            r@ == self@,
    {
        self.id.as_str()
    }

    /// The ID in the backend's response to a create request; a response
    /// without one is refused as a missing value.
    pub fn try_from_create_resp(upload_id: Option<&str>) -> (r: Result<UploadId, Error>)
        ensures
            r.is_ok() == upload_id.is_some(),
            r.is_ok() ==> r->Ok_0@ == upload_id->0@,
            r.is_err() ==> r->Err_0.repr is Missing,
    {
        match upload_id {
            Some(id) => Ok(UploadId::new(id)),
            None => Err(Error::missing("CreateResponse", "upload_id")),
        }
    }

    /// Whether the ID is empty, as no active upload's ID is.
    pub fn is_empty(&self) -> (r: bool)
        ensures
            r == (self@.len() == 0),
    {
        self.id.as_str().unicode_len() == 0
    }
}

impl Clone for UploadId {
    fn clone(&self) -> (r: Self)
        ensures
            r@ == self@,
    {
        UploadId { id: self.id.clone() }
    }
}

/// The tag that the backend assigns to an uploaded part or a completed object.
#[derive(Debug)]
pub struct EntityTag {
    tag: String,
}

impl View for EntityTag {
    type V = Seq<char>;

    closed spec fn view(&self) -> Seq<char> {
        self.tag@
    }
}

impl EntityTag {
    /// An entity tag with the given text.
    pub fn new(etag: &str) -> (r: EntityTag)
        ensures
            r@ == etag@,
    {
        EntityTag { tag: String::from_str(etag) }
    }

    /// The text of the tag.
    pub fn as_str(&self) -> (r: &str)
        ensures
            r@ == self@,
    {
        self.tag.as_str()
    }

    /// The tag in the backend's response to a part upload; a response without
    /// one is refused as a missing value.
    pub fn try_from_upload_resp(e_tag: Option<&str>) -> (r: Result<EntityTag, Error>)
        ensures
            r.is_ok() == e_tag.is_some(),
            r.is_ok() ==> r->Ok_0@ == e_tag->0@,
            r.is_err() ==> r->Err_0.repr is Missing,
    {
        match e_tag {
            Some(t) => Ok(EntityTag::new(t)),
            None => Err(Error::missing("UploadResponse", "e_tag")),
        }
    }

    /// The tag in the backend's response to a complete request; a response
    /// without one is refused as a missing value.
    pub fn try_from_complete_resp(e_tag: Option<&str>) -> (r: Result<EntityTag, Error>)
        ensures
            r.is_ok() == e_tag.is_some(),
            r.is_ok() ==> r->Ok_0@ == e_tag->0@,
            r.is_err() ==> r->Err_0.repr is Missing,
    {
        match e_tag {
            Some(t) => Ok(EntityTag::new(t)),
            None => Err(Error::missing("CompleteResponse", "e_tag")),
        }
    }
}

impl Clone for EntityTag {
    fn clone(&self) -> (r: Self)
        ensures
            r@ == self@,
    {
        EntityTag { tag: self.tag.clone() }
    }
}

/// The number of a part within its upload; the first part is number 1.
#[derive(Debug, Clone, Copy, PartialEq, Eq, Structural, PartialOrd, Ord, Hash)]
pub struct PartNumber(pub i32);

impl PartNumber {
    /// The part number `n`.
    pub fn new(n: i32) -> (r: PartNumber)
        ensures
            r.0 == n,
    {
        PartNumber(n)
    }

    /// The number of the first part of an upload.
    pub fn first() -> (r: PartNumber)
        ensures
            r.0 == 1,
    {
        PartNumber(1)
    }

    /// The plain integer.
    pub fn get(&self) -> (r: i32)
        ensures
            r == self.0,
    {
        self.0
    }

    /// Moves to the next number and returns the one it held before.
    pub fn increment(&mut self) -> (r: PartNumber)
        requires
            old(self).0 < i32::MAX,
        ensures
            r == *old(self),
            final(self).0 == old(self).0 + 1,
    {
        self.0 = self.0 + 1;
        PartNumber(self.0 - 1)
    }

    /// Moves to the next number.
    pub fn incr(&mut self)
        requires
            old(self).0 < i32::MAX,
        ensures
            final(self).0 == old(self).0 + 1,
    {
        self.0 = self.0 + 1;
    }
}

/// The identity of an active upload: its ID and its destination.
#[derive(Debug)]
pub struct UploadData {
    /// The ID that the backend assigned.
    pub id: UploadId,
    /// The destination of the object.
    pub uri: ObjectUri,
}

/// Whether two upload identities are the same.
pub open spec fn same_data(a: UploadData, b: UploadData) -> bool {
    a.id@ == b.id@ && same_uri(a.uri, b.uri)
}

impl UploadData {
    /// The identity made of `id` and `uri`.
    pub fn new(id: UploadId, uri: ObjectUri) -> (r: UploadData)
        ensures
            r.id == id,
            r.uri == uri,
    {
        UploadData { id, uri }
    }

    /// An owned copy of the upload ID.
    pub fn get_id(&self) -> (r: UploadId)
        ensures
            r@ == self.id@,
    {
        self.id.clone()
    }

    /// An owned copy of the destination.
    pub fn get_uri(&self) -> (r: ObjectUri)
        ensures
            same_uri(r, self.uri),
    {
        self.uri.clone()
    }

    /// The bucket of the destination.
    pub fn deref_bucket(&self) -> (r: &str)
        ensures
            r@ == self.uri.bucket@,
    {
        self.uri.bucket.as_str()
    }

    /// The key of the destination.
    pub fn deref_key(&self) -> (r: &str)
        ensures
            r@ == self.uri.key@,
    {
        self.uri.key.as_str()
    }
}

impl Clone for UploadData {
    fn clone(&self) -> (r: Self)
        ensures
            same_data(r, *self),
    {
        UploadData { id: self.id.clone(), uri: self.uri.clone() }
    }
}

/// The receipt of a completed upload: the object and its entity tag.
#[derive(Debug)]
pub struct CompletedUpload {
    /// The URI of the created object.
    pub uri: ObjectUri,
    /// The entity tag of the created object.
    pub etag: EntityTag,
}

impl CompletedUpload {
    /// The receipt made of `uri` and `etag`.
    pub fn new(uri: ObjectUri, etag: EntityTag) -> (r: CompletedUpload)
        ensures
            r.uri == uri,
            r.etag == etag,
    {
        CompletedUpload { uri, etag }
    }
}

} // verus!
