//! The error model: a flat category and structured upload context.
use vstd::prelude::*;
use crate::parts::CompletedParts;
use crate::request::AbortRequest;
use crate::uri::same_uri;
use crate::types::{PartNumber, UploadId};
use crate::uri::ObjectUri;

verus! {

/// The category of an error.
#[derive(Debug, Clone, Copy, PartialEq, Eq, Structural)]
#[non_exhaustive]
pub enum ErrorKind {
    /// A required value was empty, or configuration was out of range.
    Config,
    /// The part encoder failed.
    Encoding,
    /// One of the four transport operations failed.
    Transport,
    /// The upload was driven against its protocol.
    Upload,
    /// The origin of the error is not known.
    Unknown,
}

impl ErrorKind {
    /// The name of the category.
    pub fn as_str(&self) -> (r: &'static str)
        ensures
            r@ == match *self {
                ErrorKind::Config => "config"@,
                ErrorKind::Encoding => "encoding"@,
                ErrorKind::Transport => "transport"@,
                ErrorKind::Upload => "upload"@,
                ErrorKind::Unknown => "unknown"@,
            },
    {
        match self {
            ErrorKind::Config => "config",
            ErrorKind::Encoding => "encoding",
            ErrorKind::Transport => "transport",
            ErrorKind::Upload => "upload",
            ErrorKind::Unknown => "unknown",
        }
    }
}

/// The cause of an encoding error.
#[derive(Debug, Clone, Copy, PartialEq, Eq, Structural)]
pub enum EncodeErrorKind {
    /// An I/O error.
    Io,
    /// The data could not be represented.
    Data,
    /// Fewer bytes came than were expected.
    Eof,
    /// The origin of the error is not known.
    Unknown,
}

impl EncodeErrorKind {
    /// The name of the cause.
    pub fn as_str(&self) -> (r: &'static str)
        ensures
            r@ == match *self {
                EncodeErrorKind::Io => "io"@,
                EncodeErrorKind::Data => "data"@,
                EncodeErrorKind::Eof => "eof"@,
                EncodeErrorKind::Unknown => "unknown"@,
            },
    {
        match self {
            EncodeErrorKind::Io => "io",
            EncodeErrorKind::Data => "data",
            EncodeErrorKind::Eof => "eof",
            EncodeErrorKind::Unknown => "unknown",
        }
    }
}

/// An error of a part encoder.
pub trait EncodeError {
    /// A message for people.
    fn message(&self) -> String;

    /// The cause of the error.
    fn kind(&self) -> EncodeErrorKind;
}

/// The way an upload was driven against its protocol.
#[derive(Debug, Clone, Copy, PartialEq, Eq, Structural)]
pub enum UploadViolation {
    /// A new upload was started before the current one completed.
    UploadStillActive,
    /// A new upload was needed and the source of URIs had none.
    MissingNextUri,
    /// The upload already holds the largest number of parts.
    TooManyParts,
}

/// What an operator needs to resume or abort an upload that failed.
#[derive(Debug)]
pub struct FailedUpload {
    /// The ID of the upload; empty where it was never created.
    pub id: UploadId,
    /// The destination of the upload.
    pub uri: ObjectUri,
    /// The part that was in progress, if one was.
    pub part: Option<PartNumber>,
    /// The parts that completed before the failure.
    pub completed: CompletedParts,
}

impl FailedUpload {
    /// The context made of an upload's identity, the part in progress and the
    /// parts completed so far.
    pub fn new(id: UploadId, uri: ObjectUri, part: Option<PartNumber>, completed: CompletedParts) -> (r:
        FailedUpload)
        ensures
            r.id == id,
            r.uri == uri,
            r.part == part,
            r.completed == completed,
    {
        FailedUpload { id, uri, part, completed }
    }
}

impl FailedUpload {
    /// The request that aborts the failed upload, for callers that choose to.
    pub fn abort_request(&self) -> (r: AbortRequest)
        ensures
            r.spec_id() == self.id@,
            same_uri(r.spec_uri(), self.uri),
    {
        AbortRequest::new(self.id.clone(), self.uri.clone())
    }
}

/// The cases of an error, with what each carries.
#[derive(Debug)]
pub enum ErrorRepr {
    /// A required value was empty.
    Missing { what: &'static str, detail: &'static str },
    /// The encoder failed.
    Encoding { message: String, cause: EncodeErrorKind },
    /// A transport operation failed, with the upload's context where known.
    Transport { failed: Option<FailedUpload>, message: String },
    /// The upload was driven against its protocol.
    Upload { violation: UploadViolation },
    /// An error of a given category with a fixed message.
    Other { kind: ErrorKind, note: &'static str },
    /// An error from elsewhere, known by its message only.
    DynStd { message: String },
}

/// The error of every fallible operation of this library.
#[derive(Debug)]
pub struct Error {
    /// What happened.
    pub repr: ErrorRepr,
}

/// The category of an error case.
pub open spec fn kind_of(repr: ErrorRepr) -> ErrorKind {
    match repr {
        ErrorRepr::Missing { .. } => ErrorKind::Config,
        ErrorRepr::Encoding { .. } => ErrorKind::Encoding,
        ErrorRepr::Transport { .. } => ErrorKind::Transport,
        ErrorRepr::Upload { .. } => ErrorKind::Upload,
        ErrorRepr::Other { kind, .. } => kind,
        ErrorRepr::DynStd { .. } => ErrorKind::Unknown,
    }
}

impl Error {
    /// The context of the failed upload, where the error carries one.
    pub fn failed_upload(&self) -> (r: Option<&FailedUpload>)
        ensures
            match self.repr {
                ErrorRepr::Transport { failed: Some(f), .. } => r == Some(&f),
                _ => r.is_none(),
            },
    {
        match &self.repr {
            ErrorRepr::Transport { failed: Some(f), .. } => Some(f),
            _ => None,
        }
    }

    /// The category of the error.
    pub fn kind(&self) -> (r: ErrorKind)
        ensures
            r == kind_of(self.repr),
    {
        match &self.repr {
            ErrorRepr::Missing { .. } => ErrorKind::Config,
            ErrorRepr::Encoding { .. } => ErrorKind::Encoding,
            ErrorRepr::Transport { .. } => ErrorKind::Transport,
            ErrorRepr::Upload { .. } => ErrorKind::Upload,
            ErrorRepr::Other { kind, .. } => *kind,
            ErrorRepr::DynStd { .. } => ErrorKind::Unknown,
        }
    }

    /// An error from elsewhere, known by its message; its category is unknown.
    pub fn from_dyn_std(message: String) -> (r: Error)
        ensures
            r.repr == (ErrorRepr::DynStd { message }),
    {
        Error { repr: ErrorRepr::DynStd { message } }
    }

    /// An error of category `kind` with message `message`.
    pub fn other(kind: ErrorKind, note: &'static str) -> (r: Error)
        ensures
            r.repr == (ErrorRepr::Other { kind, note }),
    {
        Error { repr: ErrorRepr::Other { kind, note } }
    }

    /// An error for a required value that was empty.
    pub fn missing(what: &'static str, detail: &'static str) -> (r: Error)
        ensures
            r.repr == (ErrorRepr::Missing { what, detail }),
    {
        Error { repr: ErrorRepr::Missing { what, detail } }
    }

    /// An error of the part encoder.
    pub fn encoding(message: String, cause: EncodeErrorKind) -> (r: Error)
        ensures
            r.repr == (ErrorRepr::Encoding { message, cause }),
    {
        Error { repr: ErrorRepr::Encoding { message, cause } }
    }

    /// An error of a transport operation, with the upload's context if known.
    pub fn transport(failed: Option<FailedUpload>, message: String) -> (r: Error)
        ensures
            r.repr == (ErrorRepr::Transport { failed, message }),
    {
        Error { repr: ErrorRepr::Transport { failed, message } }
    }

    /// An error for driving the upload against its protocol.
    pub fn upload(violation: UploadViolation) -> (r: Error)
        ensures
            r.repr == (ErrorRepr::Upload { violation }),
    {
        Error { repr: ErrorRepr::Upload { violation } }
    }
}

} // verus!
