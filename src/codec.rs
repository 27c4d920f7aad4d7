//! Part encoders: how items become the bytes of a part.
use vstd::prelude::*;
use vstd::string::*;
use crate::body::PartBody;
use crate::error::{EncodeErrorKind, Error};

verus! {

/// Room that a new encoder reserves for the bytes of one part (5 MiB).
pub const DEFAULT_ENCODER_CAPACITY: usize = 5 * 1024 * 1024;

/// Encodes items, one after another, into the body of a part.
pub trait PartEncoder: Sized {
    /// The bytes encoded so far.
    spec fn encoded(&self) -> Seq<u8>;

    /// The bytes that one item becomes.
    spec fn encoding_of(item: Seq<u8>) -> Seq<u8>;

    /// Appends the bytes of one item and returns how many they are.
    fn encode(&mut self, item: &[u8]) -> (r: Result<usize, Error>)
        ensures
            r.is_ok() ==> final(self).encoded() == old(self).encoded() + Self::encoding_of(item@),
            r.is_ok() ==> r->Ok_0 == Self::encoding_of(item@).len(),
            r.is_err() ==> r->Err_0.repr is Encoding,
            r.is_err() ==> final(self).encoded() == old(self).encoded(),
    ;

    /// Commits whatever is buffered; no byte is held back afterwards.
    fn flush(&mut self) -> (r: Result<(), Error>)
        ensures
            final(self).encoded() == old(self).encoded(),
            r.is_err() ==> r->Err_0.repr is Encoding,
    ;

    /// The finished body.
    fn into_body(self) -> (r: Result<PartBody, Error>)
        ensures
            r.is_ok() ==> r->Ok_0@ == self.encoded(),
            r.is_err() ==> r->Err_0.repr is Encoding,
    ;

    /// A new encoder of the same kind for the next part of the same object.
    fn clear(&self) -> (r: Result<Self, Error>)
        ensures
            r.is_ok() ==> r->Ok_0.encoded().len() == 0,
            r.is_err() ==> r->Err_0.repr is Encoding,
    ;

    /// A new encoder of the same kind for a new object.
    fn restore(&self) -> (r: Result<Self, Error>)
        ensures
            r.is_err() ==> r->Err_0.repr is Encoding,
    ;
}

/// The error of an encoder whose part would outgrow what memory can address.
fn part_too_large() -> (r: Error)
    ensures
        r.repr is Encoding,
{
    let message = String::from_str("part too large");
    Error::encoding(message, EncodeErrorKind::Io)
}

/// The raw bytes of each item, one after another.
impl PartEncoder for PartBody {
    open spec fn encoded(&self) -> Seq<u8> {
        self@
    }

    open spec fn encoding_of(item: Seq<u8>) -> Seq<u8> {
        item
    }

    fn encode(&mut self, item: &[u8]) -> (r: Result<usize, Error>)
        ensures
            r.is_ok() == (old(self)@.len() <= isize::MAX && item@.len() <= isize::MAX - old(self)@.len()),
    {
        if self.size() > isize::MAX as usize || item.len() > isize::MAX as usize - self.size() {
            return Err(part_too_large());
        }
        self.write(item);
        proof {
            assert(self@.subrange(0, old(self)@.len() as int) =~= old(self)@);
        }
        Ok(item.len())
    }

    fn flush(&mut self) -> (r: Result<(), Error>)
        ensures
            r.is_ok(),
    {
        Ok(())
    }

    fn into_body(self) -> (r: Result<PartBody, Error>)
        ensures
            r.is_ok(),
    {
        Ok(self)
    }

    fn clear(&self) -> (r: Result<Self, Error>)
        ensures
            r.is_ok(),
    {
        Ok(PartBody::with_capacity(DEFAULT_ENCODER_CAPACITY))
    }

    fn restore(&self) -> (r: Result<Self, Error>)
        ensures
            r.is_ok() && r->Ok_0@.len() == 0,
    {
        Ok(PartBody::with_capacity(DEFAULT_ENCODER_CAPACITY))
    }
}

/// The line that an item becomes: its bytes, then a newline.
pub open spec fn line_of(item: Seq<u8>) -> Seq<u8> {
    item.push(10u8)
}

/// The lines of `items`, one after another.
pub open spec fn encode_lines(items: Seq<Seq<u8>>) -> Seq<u8>
    decreases items.len(),
{
    if items.len() == 0 {
        Seq::empty()
    } else {
        encode_lines(items.drop_last()) + line_of(items.last())
    }
}

/// Writes each item as one line, ended by `'\n'`; the first part of each
/// object may start with a header line.
#[derive(Debug)]
pub struct LinesEncoder {
    writer: PartBody,
    header: Option<Vec<u8>>,
}

impl LinesEncoder {
    /// The header line's bytes, without its newline, if there is one.
    pub closed spec fn header(&self) -> Option<Seq<u8>> {
        match self.header {
            Some(h) => Some(h@),
            None => None,
        }
    }

    /// An encoder without a header.
    pub fn new() -> (r: LinesEncoder)
        ensures
            r.encoded().len() == 0,
            r.header() is None,
    {
        LinesEncoder { writer: PartBody::with_capacity(DEFAULT_ENCODER_CAPACITY), header: None }
    }

    /// An encoder whose objects start with the line `header`.
    pub fn with_header(self, header: &str) -> (r: LinesEncoder)
        requires
            header.spec_bytes().len() < isize::MAX,
        ensures
            r.header() == Some(header.spec_bytes()),
            r.encoded() == line_of(header.spec_bytes()),
    {
        let h = header.as_bytes_vec();
        let writer = LinesEncoder::header_line(&h);
        LinesEncoder { writer, header: Some(h) }
    }

    /// Appends `item` as one line: its bytes, then a newline. Fails, with
    /// nothing written, where the part would outgrow what memory can address.
    pub fn encode_line(&mut self, item: &[u8]) -> (r: Result<usize, Error>)
        ensures
            r.is_ok() == (old(self).encoded().len() < isize::MAX && item@.len() < isize::MAX
                - old(self).encoded().len()),
            r.is_ok() ==> final(self).encoded() == old(self).encoded() + line_of(item@)
                && r->Ok_0 == item@.len() + 1,
            r.is_err() ==> final(self).encoded() == old(self).encoded() && r->Err_0.repr is Encoding,
            final(self).header() == old(self).header(),
    {
        if self.writer.size() >= isize::MAX as usize || item.len() >= isize::MAX as usize
            - self.writer.size() {
            return Err(part_too_large());
        }
        let nl: Vec<u8> = vec![10u8];
        self.writer.write(item);
        self.writer.write(nl.as_slice());
        assert(self.writer@ =~= old(self).writer@ + line_of(item@));
        Ok(item.len() + 1)
    }

    /// A new body holding the line `header`.
    fn header_line(header: &Vec<u8>) -> (r: PartBody)
        requires
            header@.len() < isize::MAX,
        ensures
            r@ == line_of(header@),
    {
        let mut writer = PartBody::with_capacity(DEFAULT_ENCODER_CAPACITY);
        let nl: Vec<u8> = vec![10u8];
        writer.write(header.as_slice());
        writer.write(nl.as_slice());
        assert(writer@ =~= line_of(header@));
        writer
    }
}

impl PartEncoder for LinesEncoder {
    closed spec fn encoded(&self) -> Seq<u8> {
        self.writer@
    }

    open spec fn encoding_of(item: Seq<u8>) -> Seq<u8> {
        line_of(item)
    }

    fn encode(&mut self, item: &[u8]) -> (r: Result<usize, Error>)
        ensures
            r.is_ok() == (old(self).encoded().len() < isize::MAX && item@.len() < isize::MAX
                - old(self).encoded().len()),
            final(self).header() == old(self).header(),
    {
        let r = self.encode_line(item);
        proof {
            if r.is_ok() {
                assert(self.writer@.subrange(0, old(self).writer@.len() as int) =~= old(self).writer@);
            }
        }
        r
    }

    fn flush(&mut self) -> (r: Result<(), Error>)
        ensures
            r.is_ok(),
    {
        Ok(())
    }

    fn into_body(self) -> (r: Result<PartBody, Error>)
        ensures
            r.is_ok(),
    {
        Ok(self.writer)
    }

    fn clear(&self) -> (r: Result<Self, Error>)
        ensures
            r.is_ok() && r->Ok_0.header() == self.header(),
    {
        let header = match &self.header {
            Some(h) => Some(h.clone()),
            None => None,
        };
        Ok(LinesEncoder { writer: PartBody::with_capacity(DEFAULT_ENCODER_CAPACITY), header })
    }

    fn restore(&self) -> (r: Result<Self, Error>)
        ensures
            r.is_ok() == (self.header() is None || self.header()->0.len() < isize::MAX),
            r.is_ok() ==> r->Ok_0.header() == self.header(),
            r.is_ok() ==> r->Ok_0.encoded() == match self.header() {
                Some(h) => line_of(h),
                None => Seq::<u8>::empty(),
            },
    {
        match &self.header {
            Some(h) => {
                if h.len() >= isize::MAX as usize {
                    return Err(part_too_large());
                }
                let writer = LinesEncoder::header_line(h);
                Ok(LinesEncoder { writer, header: Some(h.clone()) })
            },
            None => Ok(LinesEncoder::new()),
        }
    }
}

/// The index of the last newline of `b`, or -1 where it holds none.
pub open spec fn last_newline(b: Seq<u8>) -> int
    decreases b.len(),
{
    if b.len() == 0 {
        -1
    } else if b.last() == 10u8 {
        b.len() - 1
    } else {
        last_newline(b.drop_last())
    }
}

/// The lines of `b`, each without its newline; the last byte of `b` is taken
/// as the newline that ends the last line.
pub open spec fn decode_lines(b: Seq<u8>) -> Seq<Seq<u8>>
    decreases b.len(),
{
    if b.len() == 0 {
        Seq::empty()
    } else {
        let body = b.drop_last();
        let k = last_newline(body);
        let cut = if k < 0 {
            0
        } else if k >= body.len() {
            body.len() as int
        } else {
            k + 1
        };
        decode_lines(body.subrange(0, cut)).push(body.subrange(cut, body.len() as int))
    }
}

/// Whether no item holds a newline byte.
pub open spec fn no_newlines(items: Seq<Seq<u8>>) -> bool {
    forall|i: int, j: int| 0 <= i < items.len() && 0 <= j < items[i].len() ==> items[i][j] != 10u8
}

/// The items of all groups, group after group.
pub open spec fn flatten_items(groups: Seq<Seq<Seq<u8>>>) -> Seq<Seq<u8>>
    decreases groups.len(),
{
    if groups.len() == 0 {
        Seq::empty()
    } else {
        flatten_items(groups.drop_last()) + groups.last()
    }
}

/// The bodies of the parts of all groups, part after part.
pub open spec fn concat_parts(groups: Seq<Seq<Seq<u8>>>) -> Seq<u8>
    decreases groups.len(),
{
    if groups.len() == 0 {
        Seq::empty()
    } else {
        concat_parts(groups.drop_last()) + encode_lines(groups.last())
    }
}

proof fn lemma_last_newline_after_line_end(e: Seq<u8>, x: Seq<u8>)
    requires
        e.len() == 0 || e.last() == 10u8,
        forall|j: int| 0 <= j < x.len() ==> x[j] != 10u8,
    ensures
        last_newline(e + x) == e.len() - 1,
    decreases x.len(),
{
    if x.len() == 0 {
        assert(e + x =~= e);
        if e.len() > 0 {
            assert(last_newline(e) == e.len() - 1);
        }
    } else {
        assert((e + x).drop_last() =~= e + x.drop_last());
        assert((e + x).last() == x.last());
        lemma_last_newline_after_line_end(e, x.drop_last());
    }
}

proof fn lemma_encode_lines_ends(items: Seq<Seq<u8>>)
    ensures
        items.len() > 0 ==> encode_lines(items).len() > 0 && encode_lines(items).last() == 10u8,
{
}

/// Decoding the lines of items without newlines gives the items back.
pub proof fn lemma_decode_encode_lines(items: Seq<Seq<u8>>)
    requires
        no_newlines(items),
    ensures
        decode_lines(encode_lines(items)) == items,
    decreases items.len(),
{
    if items.len() > 0 {
        let rest = items.drop_last();
        let x = items.last();
        let e = encode_lines(rest);
        let b = encode_lines(items);
        assert(no_newlines(rest)) by {
            assert forall|i: int, j: int| 0 <= i < rest.len() && 0 <= j < rest[i].len() implies rest[i][j]
                != 10u8 by {
                assert(rest[i] == items[i]);
            }
        }
        assert forall|j: int| 0 <= j < x.len() implies x[j] != 10u8 by {
            assert(x == items[items.len() - 1]);
        }
        lemma_decode_encode_lines(rest);
        lemma_encode_lines_ends(rest);
        assert(b == e + x.push(10u8));
        assert(b.drop_last() =~= e + x);
        lemma_last_newline_after_line_end(e, x);
        assert((e + x).subrange(0, e.len() as int) =~= e);
        assert((e + x).subrange(e.len() as int, (e + x).len() as int) =~= x);
        assert(decode_lines(b) =~= decode_lines(e).push(x));
        assert(items =~= rest.push(x));
    }
}

/// The lines of two runs of items, one after the other, are the lines of
/// the joined run.
pub proof fn lemma_encode_lines_append(a: Seq<Seq<u8>>, b: Seq<Seq<u8>>)
    ensures
        encode_lines(a + b) == encode_lines(a) + encode_lines(b),
    decreases b.len(),
{
    if b.len() == 0 {
        assert(a + b =~= a);
        assert(encode_lines(a) + encode_lines(b) =~= encode_lines(a));
    } else {
        assert((a + b).drop_last() =~= a + b.drop_last());
        assert((a + b).last() == b.last());
        lemma_encode_lines_append(a, b.drop_last());
        assert(encode_lines(a + b) =~= encode_lines(a) + encode_lines(b));
    }
}

proof fn lemma_concat_parts_is_encoding(groups: Seq<Seq<Seq<u8>>>)
    ensures
        concat_parts(groups) == encode_lines(flatten_items(groups)),
    decreases groups.len(),
{
    if groups.len() > 0 {
        lemma_concat_parts_is_encoding(groups.drop_last());
        lemma_encode_lines_append(flatten_items(groups.drop_last()), groups.last());
    } else {
        assert(encode_lines(Seq::<Seq<u8>>::empty()) =~= Seq::<u8>::empty());
    }
}

/// Items encoded as lines into consecutive parts, one group of items per
/// part, come back in order, all of them, when the parts' bodies are joined
/// in part-number order and decoded; items must hold no newline.
pub proof fn lemma_parts_round_trip(groups: Seq<Seq<Seq<u8>>>)
    requires
        no_newlines(flatten_items(groups)),
    ensures
        decode_lines(concat_parts(groups)) == flatten_items(groups),
{
    lemma_concat_parts_is_encoding(groups);
    lemma_decode_encode_lines(flatten_items(groups));
}

} // verus!
