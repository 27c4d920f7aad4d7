//! Sources of successive destination URIs, one per upload.
use vstd::prelude::*;
use crate::error::{Error, ErrorRepr, UploadViolation};
use crate::request::CreateRequest;
use crate::uri::{Bucket, KeyPrefix, ObjectUri, same_uri};

verus! {

/// A source of URIs that yields nothing.
#[derive(Debug, Clone, Copy)]
pub struct EmptyUri;

impl EmptyUri {
    /// The next URI, which never comes.
    pub fn next(&mut self) -> (r: Option<ObjectUri>)
        ensures
            r.is_none(),
    {
        None
    }
}

/// A source of URIs that yields one URI and is then exhausted.
#[derive(Debug)]
pub struct OneTimeUse {
    uri: Option<ObjectUri>,
}

impl OneTimeUse {
    /// What is left to yield.
    pub closed spec fn held(&self) -> Option<ObjectUri> {
        self.uri
    }

    /// Uses `uri` as the one URI produced.
    pub fn new(uri: ObjectUri) -> (r: OneTimeUse)
        ensures
            r.held() == Some(uri),
    {
        OneTimeUse { uri: Some(uri) }
    }

    /// Whether the URI was already taken.
    pub fn is_empty(&self) -> (r: bool)
        ensures
            r == self.held().is_none(),
    {
        self.uri.is_none()
    }

    /// Takes the URI, the first time only.
    pub fn next(&mut self) -> (r: Option<ObjectUri>)
        ensures
            r == old(self).held(),
            final(self).held().is_none(),
    {
        self.uri.take()
    }
}

/// A finite, ordered source of URIs.
#[derive(Debug)]
pub struct NewObjectUri {
    uris: Vec<ObjectUri>,
    pos: usize,
}

impl NewObjectUri {
    /// The URIs still to be yielded, in order.
    pub closed spec fn remaining(&self) -> Seq<ObjectUri> {
        self.uris@.subrange(self.pos as int, self.uris@.len() as int)
    }

    /// Whether the position lies within the held URIs.
    pub closed spec fn wf(&self) -> bool {
        self.pos <= self.uris@.len()
    }

    /// A source that yields `uris` in order.
    pub fn uri_iter(uris: Vec<ObjectUri>) -> (r: NewObjectUri)
        ensures
            r.wf(),
            r.remaining() == uris@,
    {
        let r = NewObjectUri { uris, pos: 0 };
        assert(r.remaining() =~= r.uris@);
        r
    }

    /// A source that yields nothing.
    pub fn empty() -> (r: NewObjectUri)
        ensures
            r.wf(),
            r.remaining().len() == 0,
    {
        NewObjectUri::uri_iter(Vec::new())
    }

    /// Produces the next URI, if any is left.
    pub fn new_uri(&mut self) -> (r: Option<ObjectUri>)
        requires
            old(self).wf(),
        ensures
            final(self).wf(),
            old(self).remaining().len() == 0 ==> r.is_none() && final(self).remaining() == old(self).remaining(),
            old(self).remaining().len() > 0 ==> r.is_some() && same_uri(
                r.unwrap(),
                old(self).remaining()[0],
            ) && final(self).remaining() == old(self).remaining().drop_first(),
    {
        if self.pos < self.uris.len() {
            let uri = self.uris[self.pos].clone();
            self.pos = self.pos + 1;
            assert(self.remaining() =~= old(self).remaining().drop_first());
            Some(uri)
        } else {
            None
        }
    }
}

impl NewObjectUri {
    /// The request that creates an upload at the next URI; where none is left
    /// the next upload cannot start, which is an error.
    pub fn new_upload(&mut self) -> (r: Result<CreateRequest, Error>)
        requires
            old(self).wf(),
        ensures
            final(self).wf(),
            r.is_ok() == (old(self).remaining().len() > 0),
            r.is_ok() ==> same_uri(r->Ok_0.spec_uri(), old(self).remaining()[0])
                && final(self).remaining() == old(self).remaining().drop_first(),
            r.is_err() ==> r->Err_0.repr == (ErrorRepr::Upload {
                violation: UploadViolation::MissingNextUri,
            }),
    {
        match self.new_uri() {
            Some(uri) => Ok(CreateRequest::new(uri)),
            None => Err(Error::upload(UploadViolation::MissingNextUri)),
        }
    }
}

/// A source that yields, for each prefix in turn, the URI in `bucket` whose
/// key is that prefix followed by `name`.
#[derive(Debug)]
pub struct MapKey {
    bucket: Bucket,
    prefixes: Vec<KeyPrefix>,
    name: String,
    pos: usize,
}

impl MapKey {
    /// The bucket of every URI yielded.
    pub closed spec fn bucket(&self) -> Seq<char> {
        self.bucket@
    }

    /// The name that follows each prefix.
    pub closed spec fn name(&self) -> Seq<char> {
        self.name@
    }

    /// The prefixes still to be used, in order.
    pub closed spec fn remaining(&self) -> Seq<Seq<char>> {
        self.prefixes@.subrange(self.pos as int, self.prefixes@.len() as int).map_values(
            |p: KeyPrefix| p@,
        )
    }

    /// Whether the position lies within the held prefixes.
    pub closed spec fn wf(&self) -> bool {
        self.pos <= self.prefixes@.len()
    }

    /// A source over `prefixes` in `bucket`, with `name` after each prefix.
    pub fn new(prefixes: Vec<KeyPrefix>, bucket: Bucket, name: &str) -> (r: MapKey)
        ensures
            r.wf(),
            r.bucket() == bucket@,
            r.name() == name@,
            r.remaining() == prefixes@.map_values(|p: KeyPrefix| p@),
    {
        let r = MapKey { bucket, prefixes, name: String::from_str(name), pos: 0 };
        assert(r.prefixes@.subrange(0, r.prefixes@.len() as int) =~= r.prefixes@);
        r
    }

    /// Produces the URI of the next prefix, if any is left.
    pub fn next(&mut self) -> (r: Option<ObjectUri>)
        requires
            old(self).wf(),
        ensures
            final(self).wf(),
            final(self).bucket() == old(self).bucket(),
            final(self).name() == old(self).name(),
            old(self).remaining().len() == 0 ==> r.is_none() && final(self).remaining() == old(self).remaining(),
            old(self).remaining().len() > 0 ==> r.is_some() && r.unwrap().bucket@ == old(self).bucket() && r.unwrap().key@ == old(self).remaining()[0] + old(self).name()
                && final(self).remaining() == old(self).remaining().drop_first(),
    {
        if self.pos < self.prefixes.len() {
            let key = self.prefixes[self.pos].to_key(self.name.as_str());
            let uri = ObjectUri::new(self.bucket.clone(), key);
            self.pos = self.pos + 1;
            assert(self.remaining() =~= old(self).remaining().drop_first());
            Some(uri)
        } else {
            None
        }
    }
}

/// Turns a sequence of key prefixes into a source of URIs.
pub trait ObjectUriIterExt: Sized {
    /// The prefixes, in order.
    spec fn prefixes(&self) -> Seq<Seq<char>>;

    /// The source that yields, for each prefix, the URI in `bucket` whose key
    /// is the prefix followed by `name`.
    fn map_key(self, bucket: Bucket, name: &str) -> (r: MapKey)
        ensures
            r.wf(),
            r.bucket() == bucket@,
            r.name() == name@,
            r.remaining() == self.prefixes(),
    ;
}

impl ObjectUriIterExt for Vec<KeyPrefix> {
    open spec fn prefixes(&self) -> Seq<Seq<char>> {
        self@.map_values(|p: KeyPrefix| p@)
    }

    fn map_key(self, bucket: Bucket, name: &str) -> (r: MapKey) {
        MapKey::new(self, bucket, name)
    }
}

} // verus!
