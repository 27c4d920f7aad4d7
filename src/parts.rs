//! Parts that the backend has accepted, and their ordered collection.
use vstd::prelude::*;
use vstd::seq_lib::*;
use vstd::multiset::Multiset;
use crate::types::{EntityTag, PartNumber, UploadId};

verus! {

broadcast use vstd::seq_lib::group_to_multiset_ensures;

/// A part whose upload succeeded.
#[derive(Debug)]
pub struct CompletedPart {
    /// The upload that the part belongs to.
    pub id: UploadId,
    /// The entity tag that the backend returned for the part.
    pub etag: EntityTag,
    /// The number the part was uploaded with.
    pub part_number: PartNumber,
    /// The size of the part in bytes.
    pub part_size: usize,
}

impl CompletedPart {
    /// A completed part from its upload, tag, number and size.
    pub fn new(id: UploadId, etag: EntityTag, part_number: PartNumber, part_size: usize) -> (r:
        CompletedPart)
        ensures
            r.id == id,
            r.etag == etag,
            r.part_number == part_number,
            r.part_size == part_size,
    {
        CompletedPart { id, etag, part_number, part_size }
    }
}

/// The sum of the sizes of `parts`.
pub open spec fn parts_size(parts: Seq<CompletedPart>) -> int
    decreases parts.len(),
{
    if parts.len() == 0 {
        0
    } else {
        parts_size(parts.drop_last()) + parts.last().part_size
    }
}

/// The largest part number among `parts`, or 1 where there is none.
pub open spec fn parts_max_number(parts: Seq<CompletedPart>) -> int
    decreases parts.len(),
{
    if parts.len() == 0 {
        1
    } else if parts.len() == 1 {
        parts[0].part_number.0 as int
    } else {
        let m = parts_max_number(parts.drop_last());
        let n = parts.last().part_number.0 as int;
        if m >= n {
            m
        } else {
            n
        }
    }
}

/// Whether `parts` are ordered by part number, equal numbers allowed.
pub open spec fn sorted_by_number(parts: Seq<CompletedPart>) -> bool {
    forall|i: int, j: int|
        0 <= i < j < parts.len() ==> parts[i].part_number.0 <= parts[j].part_number.0
}

/// Whether `parts` are ordered by part number with no number twice.
pub open spec fn strictly_sorted_by_number(parts: Seq<CompletedPart>) -> bool {
    forall|i: int, j: int|
        0 <= i < j < parts.len() ==> parts[i].part_number.0 < parts[j].part_number.0
}

/// Whether no two of `parts` have the same part number.
pub open spec fn distinct_numbers(parts: Seq<CompletedPart>) -> bool {
    forall|i: int, j: int|
        0 <= i < parts.len() && 0 <= j < parts.len() && i != j ==> parts[i].part_number.0
            != parts[j].part_number.0
}

/// The part numbers of `parts`, in their order.
pub open spec fn part_numbers(parts: Seq<CompletedPart>) -> Seq<i32> {
    parts.map_values(|p: CompletedPart| p.part_number.0)
}

proof fn lemma_insert_to_multiset(s: Seq<CompletedPart>, pos: int, x: CompletedPart)
    requires
        0 <= pos <= s.len(),
    ensures
        s.insert(pos, x).to_multiset() =~= s.to_multiset().insert(x),
{
    let a = s.subrange(0, pos);
    let b = s.subrange(pos, s.len() as int);
    assert(s =~= a + b);
    lemma_multiset_commutative(a, b);
    lemma_multiset_commutative(a.push(x), b);
}

/// The parts of an upload that have completed; sorted by part number whenever
/// it is extended.
#[derive(Debug)]
pub struct CompletedParts {
    parts: Vec<CompletedPart>,
}

impl View for CompletedParts {
    type V = Seq<CompletedPart>;

    closed spec fn view(&self) -> Seq<CompletedPart> {
        self.parts@
    }
}

impl CompletedParts {
    /// An empty collection.
    pub fn new() -> (r: CompletedParts)
        ensures
            r@ == Seq::<CompletedPart>::empty(),
    {
        CompletedParts { parts: Vec::new() }
    }

    /// Adds a part at the end.
    pub fn push(&mut self, part: CompletedPart)
        ensures
            final(self)@ == old(self)@.push(part),
    {
        self.parts.push(part);
    }

    /// Adds the parts of `other`, then sorts the whole by part number.
    pub fn extend(&mut self, other: CompletedParts)
        ensures
            final(self)@.to_multiset() == old(self)@.to_multiset().add(other@.to_multiset()),
            sorted_by_number(final(self)@),
    {
        let ghost added = other@;
        let mut other = other;
        self.parts.append(&mut other.parts);
        proof {
            lemma_multiset_commutative(old(self)@, added);
        }
        self.sort_ascending();
    }

    /// The number of parts.
    pub fn count(&self) -> (r: usize)
        ensures
            r == self@.len(),
    {
        self.parts.len()
    }

    /// The part at `i`.
    pub fn get(&self, i: usize) -> (r: &CompletedPart)
        requires
            i < self@.len(),
        ensures
            *r == self@[i as int],
    {
        &self.parts[i]
    }

    /// The total size in bytes of the parts.
    pub fn size(&self) -> (r: usize)
        requires
            parts_size(self@) <= usize::MAX,
        ensures
            r == parts_size(self@),
    {
        let mut total: usize = 0;
        let mut i: usize = 0;
        while i < self.parts.len()
            invariant
                i <= self@.len(),
                parts_size(self@) <= usize::MAX,
                total == parts_size(self@.subrange(0, i as int)),
            decreases self@.len() - i,
        {
            proof {
                let s = self@.subrange(0, i as int + 1);
                assert(s.drop_last() =~= self@.subrange(0, i as int));
                self.lemma_prefix_size_bounded(i as int + 1);
            }
            total = total + self.parts[i].part_size;
            i = i + 1;
        }
        assert(self@.subrange(0, i as int) =~= self@);
        total
    }

    proof fn lemma_prefix_size_bounded(&self, k: int)
        requires
            0 <= k <= self@.len(),
        ensures
            parts_size(self@.subrange(0, k)) <= parts_size(self@),
        decreases self@.len() - k,
    {
        if k < self@.len() {
            self.lemma_prefix_size_bounded(k + 1);
            assert(self@.subrange(0, k + 1).drop_last() =~= self@.subrange(0, k));
        } else {
            assert(self@.subrange(0, k) =~= self@);
        }
    }

    /// The largest part number, or 1 where there is no part.
    pub fn max_part_number(&self) -> (r: PartNumber)
        ensures
            r.0 == parts_max_number(self@),
    {
        if self.parts.len() == 0 {
            return PartNumber::first();
        }
        let mut best: i32 = self.parts[0].part_number.0;
        let mut i: usize = 1;
        assert(self@.subrange(0, 1).len() == 1);
        while i < self.parts.len()
            invariant
                1 <= i <= self@.len(),
                best == parts_max_number(self@.subrange(0, i as int)),
            decreases self@.len() - i,
        {
            proof {
                assert(self@.subrange(0, i as int + 1).drop_last() =~= self@.subrange(0, i as int));
            }
            let n = self.parts[i].part_number.0;
            if n > best {
                best = n;
            }
            i = i + 1;
        }
        assert(self@.subrange(0, i as int) =~= self@);
        PartNumber(best)
    }

    /// Sorts the parts by part number, keeping every part.
    pub fn sort_ascending(&mut self)
        ensures
            final(self)@.to_multiset() == old(self)@.to_multiset(),
            sorted_by_number(final(self)@),
    {
        let mut sorted: Vec<CompletedPart> = Vec::new();
        let ghost orig = self.parts@;
        while self.parts.len() > 0
            invariant
                sorted@.to_multiset().add(self.parts@.to_multiset()) == orig.to_multiset(),
                sorted_by_number(sorted@),
            decreases self.parts@.len(),
        {
            let ghost before = self.parts@;
            let x = self.parts.pop().unwrap();
            proof {
                assert(before =~= self.parts@.push(x));
            }
            let mut pos: usize = 0;
            while pos < sorted.len() && sorted[pos].part_number.0 <= x.part_number.0
                invariant
                    pos <= sorted@.len(),
                    forall|k: int| 0 <= k < pos ==> sorted@[k].part_number.0 <= x.part_number.0,
                decreases sorted@.len() - pos,
            {
                pos = pos + 1;
            }
            let ghost prev = sorted@;
            sorted.insert(pos, x);
            proof {
                prev.insert_ensures(pos as int, x);
                lemma_insert_to_multiset(prev, pos as int, x);
                assert forall|i: int, j: int| 0 <= i < j < sorted@.len() implies sorted@[i].part_number.0
                    <= sorted@[j].part_number.0 by {
                    if j < pos {
                    } else if j == pos {
                    } else if i < pos {
                        assert(sorted@[j] == prev[j - 1]);
                    } else if i == pos {
                        assert(sorted@[j] == prev[j - 1]);
                        assert(prev[pos as int].part_number.0 > x.part_number.0);
                    } else {
                        assert(sorted@[j] == prev[j - 1]);
                        assert(sorted@[i] == prev[i - 1]);
                    }
                }
            }
        }
        proof {
            assert(self.parts@.to_multiset() =~= Multiset::<CompletedPart>::empty());
        }
        self.parts = sorted;
    }
}

/// Rearranging parts keeps their numbers distinct.
pub proof fn lemma_rearranged_parts_distinct(s: Seq<CompletedPart>, t: Seq<CompletedPart>)
    requires
        s.to_multiset() == t.to_multiset(),
        distinct_numbers(s),
    ensures
        distinct_numbers(t),
{
    assert forall|i: int, j: int|
        0 <= i < t.len() && 0 <= j < t.len() && i != j implies t[i].part_number.0
        != t[j].part_number.0 by {
        if t[i].part_number.0 == t[j].part_number.0 {
            assert(t.to_multiset().count(t[i]) > 0);
            assert(s.contains(t[i]));
            let k = choose|k: int| 0 <= k < s.len() && s[k] == t[i];
            assert(t.to_multiset().count(t[j]) > 0);
            assert(s.contains(t[j]));
            let l = choose|l: int| 0 <= l < s.len() && s[l] == t[j];
            if t[i] == t[j] {
                let a = if i < j { i } else { j };
                let b = if i < j { j } else { i };
                t.remove_ensures(a);
                assert(t.remove(a)[b - 1] == t[b]);
                assert(t.remove(a).contains(t[a]));
                assert(t.remove(a).to_multiset().count(t[a]) > 0);
                s.remove_ensures(k);
                assert(s.remove(k).to_multiset().count(t[a]) > 0);
                assert(s.remove(k).contains(t[a]));
                let m = choose|m: int| 0 <= m < s.remove(k).len() && s.remove(k)[m] == t[a];
                let m2 = if m < k { m } else { m + 1 };
                assert(s[m2] == t[a]);
                assert(s[m2].part_number.0 != s[k].part_number.0);
            } else {
                assert(k != l);
                assert(s[k].part_number.0 != s[l].part_number.0);
            }
        }
    }
}

/// Parts with distinct numbers, once sorted, are strictly ascending.
pub proof fn lemma_sorted_parts_strictly_ascending(parts: Seq<CompletedPart>)
    requires
        sorted_by_number(parts),
        distinct_numbers(parts),
    ensures
        strictly_sorted_by_number(parts),
{
    assert forall|i: int, j: int| 0 <= i < j < parts.len() implies parts[i].part_number.0
        < parts[j].part_number.0 by {
        assert(parts[i].part_number.0 != parts[j].part_number.0);
    }
}

/// The largest part number among `parts`, or 0 where there is none.
pub open spec fn last_number(parts: Seq<(EntityTag, i32)>) -> int
    decreases parts.len(),
{
    if parts.len() == 0 {
        0
    } else {
        let m = last_number(parts.drop_last());
        let n = parts.last().1 as int;
        if m >= n {
            m
        } else {
            n
        }
    }
}

/// Entity tags of uploaded parts, each with the part number it was given.
#[derive(Debug)]
pub struct UploadedParts {
    /// The tags and numbers, in the order the parts were recorded.
    pub parts: Vec<(EntityTag, i32)>,
}

impl UploadedParts {
    /// An empty record.
    pub fn new() -> (r: UploadedParts)
        ensures
            r.parts@.len() == 0,
    {
        UploadedParts { parts: Vec::new() }
    }

    /// Records `etag` under the number after the largest one recorded.
    pub fn update(&mut self, etag: EntityTag)
        requires
            last_number(old(self).parts@) < i32::MAX,
        ensures
            final(self).parts@ == old(self).parts@.push((etag, (last_number(old(self).parts@) + 1) as i32)),
    {
        let n = self.next_part_number();
        self.parts.push((etag, n));
    }

    /// The number of parts recorded.
    pub fn num_parts(&self) -> (r: usize)
        ensures
            r == self.parts@.len(),
    {
        self.parts.len()
    }

    /// The largest part number recorded, or 0 where there is none.
    pub fn last_part_number(&self) -> (r: i32)
        ensures
            r == last_number(self.parts@),
    {
        let mut best: i32 = 0;
        let mut i: usize = 0;
        while i < self.parts.len()
            invariant
                i <= self.parts@.len(),
                best == last_number(self.parts@.subrange(0, i as int)),
            decreases self.parts@.len() - i,
        {
            proof {
                assert(self.parts@.subrange(0, i as int + 1).drop_last() =~= self.parts@.subrange(
                    0,
                    i as int,
                ));
            }
            let n = self.parts[i].1;
            if n > best {
                best = n;
            }
            i = i + 1;
        }
        assert(self.parts@.subrange(0, i as int) =~= self.parts@);
        best
    }

    /// The number the next part will be recorded under.
    pub fn next_part_number(&self) -> (r: i32)
        requires
            last_number(self.parts@) < i32::MAX,
        ensures
            r == last_number(self.parts@) + 1,
    {
        self.last_part_number() + 1
    }
}

} // verus!
