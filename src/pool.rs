//! The pending pool: part uploads in flight, bounded in number, and the parts
//! that completed.
use vstd::prelude::*;
use crate::parts::{CompletedPart, CompletedParts, distinct_numbers};
use crate::types::{EntityTag, PartNumber, UploadId};

verus! {

/// A part upload that was dispatched and has not resolved.
#[derive(Debug, Clone, Copy, PartialEq, Eq, Structural)]
pub struct PendingPart {
    /// The number the part was dispatched with.
    pub part: PartNumber,
    /// The size of its body in bytes.
    pub bytes: usize,
}

/// Whether no two pending parts share a number.
pub open spec fn distinct_pending(pending: Seq<PendingPart>) -> bool {
    forall|i: int, j: int|
        0 <= i < pending.len() && 0 <= j < pending.len() && i != j ==> pending[i].part.0
            != pending[j].part.0
}

/// Whether no pending part has the number of a completed one.
pub open spec fn disjoint_numbers(pending: Seq<PendingPart>, completed: Seq<CompletedPart>) -> bool {
    forall|i: int, j: int|
        0 <= i < pending.len() && 0 <= j < completed.len() ==> pending[i].part.0
            != completed[j].part_number.0
}

/// Whether part number `n` is among `pending` or `completed`.
pub open spec fn number_in_pool(
    n: i32,
    pending: Seq<PendingPart>,
    completed: Seq<CompletedPart>,
) -> bool {
    (exists|i: int| 0 <= i < pending.len() && pending[i].part.0 == n) || (exists|j: int|
        0 <= j < completed.len() && completed[j].part_number.0 == n)
}

/// The bounded set of part uploads in flight, with the parts that completed.
#[derive(Debug)]
pub struct PartBuffer {
    pending: Vec<PendingPart>,
    completed: CompletedParts,
    capacity: Option<usize>,
}

impl PartBuffer {
    /// The parts in flight, in the order they were dispatched.
    pub closed spec fn pending(&self) -> Seq<PendingPart> {
        self.pending@
    }

    /// The parts that completed, in the order they completed.
    pub closed spec fn completed(&self) -> Seq<CompletedPart> {
        self.completed@
    }

    /// The largest number of parts in flight, if there is one.
    pub closed spec fn capacity(&self) -> Option<usize> {
        self.capacity
    }

    /// Whether a bound holds the parts in flight and no number appears twice.
    pub open spec fn wf(&self) -> bool {
        &&& self.capacity() is Some ==> 0 < self.capacity()->0 && self.pending().len()
            <= self.capacity()->0
        &&& distinct_pending(self.pending())
        &&& distinct_numbers(self.completed())
        &&& disjoint_numbers(self.pending(), self.completed())
    }

    /// Whether one more part may be dispatched.
    pub open spec fn spec_is_ready(&self) -> bool {
        self.capacity() is None || self.pending().len() < self.capacity()->0
    }

    /// An empty pool; a capacity of zero means no bound.
    pub fn new(capacity: Option<usize>) -> (r: PartBuffer)
        ensures
            r.wf(),
            r.capacity() == (if capacity == Some(0usize) {
                None
            } else {
                capacity
            }),
            r.pending().len() == 0,
            r.completed().len() == 0,
    {
        let capacity = match capacity {
            Some(0) => None,
            other => other,
        };
        PartBuffer { pending: Vec::new(), completed: CompletedParts::new(), capacity }
    }

    /// Whether one more part may be dispatched.
    pub fn is_ready(&self) -> (r: bool)
        ensures
            r == self.spec_is_ready(),
    {
        match self.capacity {
            None => true,
            Some(n) => self.pending.len() < n,
        }
    }

    /// The number of parts in flight.
    pub fn pending_count(&self) -> (r: usize)
        ensures
            r == self.pending().len(),
    {
        self.pending.len()
    }

    /// Whether every dispatched part has resolved.
    pub fn is_flushed(&self) -> (r: bool)
        ensures
            r == (self.pending().len() == 0),
    {
        self.pending.len() == 0
    }

    /// Records a dispatched part; only when the pool is ready, and only with a
    /// number that it does not hold.
    pub fn start_send(&mut self, part: PendingPart)
        requires
            old(self).wf(),
            old(self).spec_is_ready(),
            !number_in_pool(part.part.0, old(self).pending(), old(self).completed()),
        ensures
            final(self).wf(),
            final(self).pending() == old(self).pending().push(part),
            final(self).completed() == old(self).completed(),
            final(self).capacity() == old(self).capacity(),
    {
        self.pending.push(part);
        proof {
            let p = self.pending();
            assert forall|i: int, j: int|
                0 <= i < p.len() && 0 <= j < p.len() && i != j implies p[i].part.0 != p[j].part.0 by {
                if i == p.len() - 1 {
                    assert(p[j] == old(self).pending()[j]);
                } else if j == p.len() - 1 {
                    assert(p[i] == old(self).pending()[i]);
                }
            }
            assert forall|i: int, j: int|
                0 <= i < p.len() && 0 <= j < self.completed().len() implies p[i].part.0
                != self.completed()[j].part_number.0 by {
                if i == p.len() - 1 {
                    assert(self.completed()[j] == old(self).completed()[j]);
                }
            }
        }
    }

    /// Records that the part numbered `part` of upload `id` succeeded with tag
    /// `etag`; false, and nothing changes, where no such part is in flight.
    pub fn complete_part(&mut self, id: UploadId, part: PartNumber, etag: EntityTag) -> (r: bool)
        requires
            old(self).wf(),
        ensures
            final(self).wf(),
            final(self).capacity() == old(self).capacity(),
            r == (exists|i: int|
                0 <= i < old(self).pending().len() && old(self).pending()[i].part == part),
            !r ==> final(self).pending() == old(self).pending(),
            !r ==> final(self).completed() == old(self).completed(),
            r ==> exists|i: int|
                0 <= i < old(self).pending().len() && old(self).pending()[i].part == part
                    && final(self).pending() == old(self).pending().remove(i)
                    && final(self).completed() == old(self).completed().push(
                    (CompletedPart { id, etag, part_number: part, part_size: old(self).pending()[i].bytes }),
                ),
    {
        let mut i: usize = 0;
        while i < self.pending.len()
            invariant
                i <= self.pending@.len(),
                self.pending@ == old(self).pending(),
                self.completed@ == old(self).completed(),
                self.capacity == old(self).capacity(),
                old(self).wf(),
                forall|k: int| 0 <= k < i ==> self.pending@[k].part != part,
            decreases self.pending@.len() - i,
        {
            if self.pending[i].part.0 == part.0 {
                let done = self.pending.remove(i);
                let ghost before = self.completed@;
                self.completed.push(CompletedPart::new(id, etag, part, done.bytes));
                proof {
                    let op = old(self).pending();
                    op.remove_ensures(i as int);

                    let p = self.pending();
                    let c = self.completed();
                    assert forall|a: int, b: int|
                        0 <= a < p.len() && 0 <= b < p.len() && a != b implies p[a].part.0
                        != p[b].part.0 by {
                        let a2 = if a < i { a } else { a + 1 };
                        let b2 = if b < i { b } else { b + 1 };
                        assert(p[a] == op[a2] && p[b] == op[b2]);
                        assert(op[a2].part.0 != op[b2].part.0);
                    }
                    assert forall|a: int, b: int|
                        0 <= a < c.len() && 0 <= b < c.len() && a != b implies c[a].part_number.0
                        != c[b].part_number.0 by {
                        assert(before == old(self).completed());
                        if a == c.len() - 1 {
                            assert(c[b] == before[b]);
                            assert(op[i as int].part.0 != before[b].part_number.0);
                        } else if b == c.len() - 1 {
                            assert(c[a] == before[a]);
                            assert(op[i as int].part.0 != before[a].part_number.0);
                        } else {
                            assert(c[a] == before[a] && c[b] == before[b]);
                        }
                    }
                    assert forall|a: int, b: int| 0 <= a < p.len() && 0 <= b < c.len() implies p[a].part.0
                        != c[b].part_number.0 by {
                        let a2 = if a < i { a } else { a + 1 };
                        assert(p[a] == op[a2]);
                        if b == c.len() - 1 {
                            assert(a2 != i);
                            assert(op[a2].part.0 != op[i as int].part.0);
                        } else {
                            assert(c[b] == before[b]);
                        }
                    }
                }
                return true;
            }
            i = i + 1;
        }
        false
    }

    /// Drops every part in flight, as after a failure; completed parts stay.
    pub fn drop_pending(&mut self)
        requires
            old(self).wf(),
        ensures
            final(self).wf(),
            final(self).pending().len() == 0,
            final(self).completed() == old(self).completed(),
            final(self).capacity() == old(self).capacity(),
    {
        self.pending.clear();
    }

    /// Hands out the completed parts and empties that list.
    pub fn take_completed(&mut self) -> (r: CompletedParts)
        requires
            old(self).wf(),
        ensures
            final(self).wf(),
            r@ == old(self).completed(),
            final(self).completed().len() == 0,
            final(self).pending() == old(self).pending(),
            final(self).capacity() == old(self).capacity(),
    {
        let mut out = CompletedParts::new();
        std::mem::swap(&mut out, &mut self.completed);
        out
    }
}

} // verus!
