//! The growable byte buffer that holds the body of one part.
use vstd::prelude::*;
use bytes::BytesMut;

verus! {

#[verifier::external_type_specification]
#[verifier::external_body]
pub struct ExBytesMut(bytes::BytesMut);

/// The bytes that a `BytesMut` holds, in order.
pub uninterp spec fn bytes_held(b: BytesMut) -> Seq<u8>;

/// Relies on `BytesMut::with_capacity`: the new buffer holds no bytes.
pub assume_specification[ bytes::BytesMut::with_capacity ](capacity: usize) -> (r: BytesMut)
    requires
        capacity <= isize::MAX,
    ensures
        bytes_held(r) == Seq::<u8>::empty(),
;

/// Relies on `BytesMut::len`: the number of bytes held.
pub assume_specification[ bytes::BytesMut::len ](b: &BytesMut) -> (r: usize)
    ensures
        r == bytes_held(*b).len(),
;

/// Relies on `BytesMut::extend_from_slice`: the bytes of `extend` follow those
/// held before.
pub assume_specification[ bytes::BytesMut::extend_from_slice ](
    b: &mut BytesMut,
    extend: &[u8],
)
    requires
        bytes_held(*old(b)).len() + extend@.len() <= isize::MAX,
    ensures
        bytes_held(*final(b)) == bytes_held(*old(b)) + extend@,
;

/// Relies on `BytesMut`'s `Deref` to `[u8]` and on `<[u8]>::to_vec`: a copy of
/// the bytes held.
#[verifier::external_body]
fn copy_bytes(b: &BytesMut) -> (r: Vec<u8>)
    ensures
        r@ == bytes_held(*b),
{
    b.to_vec()
}

/// The body of one part; built by an encoder, then handed to the transport.
#[derive(Debug)]
pub struct PartBody {
    bytes: BytesMut,
}

impl View for PartBody {
    type V = Seq<u8>;

    closed spec fn view(&self) -> Seq<u8> {
        bytes_held(self.bytes)
    }
}

impl PartBody {
    /// A body holding the bytes of `bytes`.
    pub fn new(bytes: BytesMut) -> (r: PartBody)
        ensures
            r@ == bytes_held(bytes),
    {
        PartBody { bytes }
    }

    /// An empty body with room for `capacity` bytes.
    pub fn with_capacity(capacity: usize) -> (r: PartBody)
        requires
            capacity <= isize::MAX,
        ensures
            r@ == Seq::<u8>::empty(),
    {
        PartBody { bytes: BytesMut::with_capacity(capacity) }
    }

    /// The size of the body in bytes.
    pub fn size(&self) -> (r: usize)
        ensures
            r == self@.len(),
    {
        self.bytes.len()
    }

    /// Appends `buf` to the body.
    pub fn write(&mut self, buf: &[u8])
        requires
            old(self)@.len() + buf@.len() <= isize::MAX,
        ensures
            final(self)@ == old(self)@ + buf@,
    {
        self.bytes.extend_from_slice(buf);
    }

    /// A copy of the bytes of the body.
    pub fn to_vec(&self) -> (r: Vec<u8>)
        ensures
            r@ == self@,
    {
        copy_bytes(&self.bytes)
    }

    /// The buffer, for the transport to send.
    pub fn into_inner(self) -> (r: BytesMut)
        ensures
            bytes_held(r) == self@,
    {
        self.bytes
    }
}

} // verus!
