//! The four requests of the transport, each checked before it is sent.
use vstd::prelude::*;
use crate::body::PartBody;
use crate::error::Error;
use crate::parts::CompletedParts;
use crate::types::{PartNumber, UploadData, UploadId};
use crate::uri::{ObjectUri, same_uri, uri_is_empty};

verus! {

/// The request to create an upload at a destination.
#[derive(Debug)]
pub struct CreateRequest {
    uri: ObjectUri,
}

impl CreateRequest {
    /// The destination of the new object.
    pub closed spec fn spec_uri(&self) -> ObjectUri {
        self.uri
    }

    /// The request to create an upload at `uri`.
    pub fn new(uri: ObjectUri) -> (r: CreateRequest)
        ensures
            r.spec_uri() == uri,
    {
        CreateRequest { uri }
    }

    /// The destination of the new object.
    pub fn uri(&self) -> (r: &ObjectUri)
        ensures
            *r == self.spec_uri(),
    {
        &self.uri
    }

    /// Fails exactly when the bucket or the key is empty.
    pub fn validate(&self) -> (r: Result<(), Error>)
        ensures
            r.is_err() == uri_is_empty(self.spec_uri()),
            r.is_err() ==> r->Err_0.repr is Missing,
    {
        if self.uri.is_empty() {
            Err(Error::missing("CreateRequest", "empty object uri"))
        } else {
            Ok(())
        }
    }
}

/// The request to add one part to an active upload.
#[derive(Debug)]
pub struct UploadPartRequest {
    id: UploadId,
    uri: ObjectUri,
    body: PartBody,
    part_number: PartNumber,
}

impl UploadPartRequest {
    /// The ID of the upload.
    pub closed spec fn spec_id(&self) -> Seq<char> {
        self.id@
    }

    /// The destination of the upload.
    pub closed spec fn spec_uri(&self) -> ObjectUri {
        self.uri
    }

    /// The bytes of the part.
    pub closed spec fn spec_body(&self) -> Seq<u8> {
        self.body@
    }

    /// The number of the part.
    pub closed spec fn spec_part_number(&self) -> PartNumber {
        self.part_number
    }

    /// The request to upload `body` as part `part_number` of the upload `data`.
    pub fn new(data: &UploadData, body: PartBody, part_number: PartNumber) -> (r: UploadPartRequest)
        ensures
            r.spec_id() == data.id@,
            same_uri(r.spec_uri(), data.uri),
            r.spec_body() == body@,
            r.spec_part_number() == part_number,
    {
        UploadPartRequest { id: data.get_id(), uri: data.get_uri(), body, part_number }
    }

    /// The ID of the upload.
    pub fn id(&self) -> (r: &UploadId)
        ensures
            r@ == self.spec_id(),
    {
        &self.id
    }

    /// The destination of the upload.
    pub fn uri(&self) -> (r: &ObjectUri)
        ensures
            *r == self.spec_uri(),
    {
        &self.uri
    }

    /// The body of the part.
    pub fn body(&self) -> (r: &PartBody)
        ensures
            r@ == self.spec_body(),
    {
        &self.body
    }

    /// The number of the part.
    pub fn part_number(&self) -> (r: PartNumber)
        ensures
            r == self.spec_part_number(),
    {
        self.part_number
    }

    /// The body, for the transport to send.
    pub fn into_body(self) -> (r: PartBody)
        ensures
            r@ == self.spec_body(),
    {
        self.body
    }

    /// Fails exactly when the upload ID, the bucket or the key is empty.
    pub fn validate(&self) -> (r: Result<(), Error>)
        ensures
            r.is_err() == (self.spec_id().len() == 0 || uri_is_empty(self.spec_uri())),
            r.is_err() ==> r->Err_0.repr is Missing,
    {
        if self.id.is_empty() || self.uri.is_empty() {
            Err(Error::missing("UploadPartRequest", "empty upload id and/or uri"))
        } else {
            Ok(())
        }
    }
}

/// The request to complete an upload from its completed parts.
#[derive(Debug)]
pub struct CompleteRequest {
    id: UploadId,
    uri: ObjectUri,
    completed_parts: CompletedParts,
}

impl CompleteRequest {
    /// The ID of the upload.
    pub closed spec fn spec_id(&self) -> Seq<char> {
        self.id@
    }

    /// The destination of the upload.
    pub closed spec fn spec_uri(&self) -> ObjectUri {
        self.uri
    }

    /// The parts to assemble, in the order they are sent.
    pub closed spec fn spec_parts(&self) -> Seq<crate::parts::CompletedPart> {
        self.completed_parts@
    }

    /// The request to complete the upload `data` from `completed_parts`.
    pub fn new(data: &UploadData, completed_parts: CompletedParts) -> (r: CompleteRequest)
        ensures
            r.spec_id() == data.id@,
            same_uri(r.spec_uri(), data.uri),
            r.spec_parts() == completed_parts@,
    {
        CompleteRequest { id: data.get_id(), uri: data.get_uri(), completed_parts }
    }

    /// The ID of the upload.
    pub fn id(&self) -> (r: &UploadId)
        ensures
            r@ == self.spec_id(),
    {
        &self.id
    }

    /// The destination of the upload.
    pub fn uri(&self) -> (r: &ObjectUri)
        ensures
            *r == self.spec_uri(),
    {
        &self.uri
    }

    /// The parts to assemble.
    pub fn completed_parts(&self) -> (r: &CompletedParts)
        ensures
            r@ == self.spec_parts(),
    {
        &self.completed_parts
    }

    /// Fails exactly when the upload ID, the bucket or the key is empty.
    pub fn validate(&self) -> (r: Result<(), Error>)
        ensures
            r.is_err() == (self.spec_id().len() == 0 || uri_is_empty(self.spec_uri())),
            r.is_err() ==> r->Err_0.repr is Missing,
    {
        if self.id.is_empty() || self.uri.is_empty() {
            Err(Error::missing("CompleteRequest", "empty upload id and/or uri"))
        } else {
            Ok(())
        }
    }
}

/// The request to abort an upload.
#[derive(Debug)]
pub struct AbortRequest {
    id: UploadId,
    uri: ObjectUri,
}

impl AbortRequest {
    /// The ID of the upload.
    pub closed spec fn spec_id(&self) -> Seq<char> {
        self.id@
    }

    /// The destination of the upload.
    pub closed spec fn spec_uri(&self) -> ObjectUri {
        self.uri
    }

    /// The request to abort the upload `id` at `uri`.
    pub fn new(id: UploadId, uri: ObjectUri) -> (r: AbortRequest)
        ensures
            r.spec_id() == id@,
            r.spec_uri() == uri,
    {
        AbortRequest { id, uri }
    }

    /// The ID of the upload.
    pub fn id(&self) -> (r: &UploadId)
        ensures
            r@ == self.spec_id(),
    {
        &self.id
    }

    /// The destination of the upload.
    pub fn uri(&self) -> (r: &ObjectUri)
        ensures
            *r == self.spec_uri(),
    {
        &self.uri
    }

    /// Fails exactly when the upload ID, the bucket or the key is empty.
    pub fn validate(&self) -> (r: Result<(), Error>)
        ensures
            r.is_err() == (self.spec_id().len() == 0 || uri_is_empty(self.spec_uri())),
            r.is_err() ==> r->Err_0.repr is Missing,
    {
        if self.id.is_empty() || self.uri.is_empty() {
            Err(Error::missing("AbortRequest", "empty upload id and/or uri"))
        } else {
            Ok(())
        }
    }
}

} // verus!
