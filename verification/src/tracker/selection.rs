//! Reading a batch from the tracked set.

use vstd::prelude::*;
use crate::entropy::{draw_below, fresh_generator};
use crate::resource::TrackedResource;
use crate::tracker::{ResourceTracker, TrackerError};

verus! {

/// The `count` entries read round-robin from position `start`.
pub open spec fn batch_at(s: Seq<TrackedResource>, start: int, count: int) -> Seq<
    TrackedResource,
> {
    Seq::new(
        (if count <= s.len() { count } else { s.len() as int }) as nat,
        |i: int| s[(start + i) % (s.len() as int)],
    )
}

impl ResourceTracker {
    /// Reads `min(count, len)` entries round-robin, beginning at position
    /// `start` (taken modulo the size of the set), without changing the set.
    pub fn select_batch_from(&self, start: usize, count: usize) -> (r: Result<
        Vec<TrackedResource>,
        TrackerError,
    >)
        ensures
            self@.len() == 0 <==> r == Err::<Vec<TrackedResource>, TrackerError>(
                TrackerError::EmptyPool,
            ),
            self@.len() > 0 ==> r is Ok && r->Ok_0@ == batch_at(
                self@,
                start as int,
                count as int,
            ),
    {
        let len: usize = self.items.len();
        if len == 0 {
            return Err(TrackerError::EmptyPool);
        }
        let wanted: usize = if count <= len {
            count
        } else {
            len
        };
        let mut batch: Vec<TrackedResource> = Vec::new();
        let mut position: usize = start % len;
        let mut taken: usize = 0;
        while taken < wanted
            invariant
                len == self.items@.len(),
                len > 0,
                wanted <= len,
                taken <= wanted,
                position < len,
                position as int == (start + taken) % (len as int),
                batch@.len() == taken,
                forall|i: int|
                    0 <= i < taken ==> batch@[i] == self.items@[(start + i) % (len as int)],
            decreases wanted - taken,
        {
            batch.push(self.items[position]);
            proof {
                lemma_next_position(start as int, taken as int, len as int);
            }
            position = if position + 1 == len {
                0
            } else {
                position + 1
            };
            taken = taken + 1;
        }
        assert(batch@ =~= batch_at(self@, start as int, count as int));
        Ok(batch)
    }

    /// Reads `min(count, len)` entries round-robin from a position drawn at
    /// random: the batch that `select_batch_from` gives for some position
    /// inside the set.
    pub fn select_batch(&self, count: usize) -> (r: Result<Vec<TrackedResource>, TrackerError>)
        ensures
            self@.len() == 0 <==> r == Err::<Vec<TrackedResource>, TrackerError>(
                TrackerError::EmptyPool,
            ),
            self@.len() > 0 ==> r is Ok && exists|start: int|
                0 <= start < self@.len() && r->Ok_0@ == #[trigger] batch_at(
                    self@,
                    start,
                    count as int,
                ),
    {
        let len: usize = self.items.len();
        if len == 0 {
            return Err(TrackerError::EmptyPool);
        }
        let mut generator = fresh_generator();
        let start: usize = draw_below(&mut generator, len);
        let r = self.select_batch_from(start, count);
        assert(r->Ok_0@ == batch_at(self@, start as int, count as int));
        r
    }
}

/// Stepping one position forward, wrapping at `len`, follows `(start + taken) % len`.
proof fn lemma_next_position(start: int, taken: int, len: int)
    requires
        0 <= start,
        0 <= taken,
        0 < len,
    ensures
        (start + taken + 1) % len == (if (start + taken) % len + 1 == len {
            0
        } else {
            (start + taken) % len + 1
        }),
{
    let a = start + taken;
    assert((a + 1) % len == (if a % len + 1 == len {
        0
    } else {
        a % len + 1
    })) by (nonlinear_arith)
        requires
            0 <= a,
            0 < len,
    ;
}

/// A batch reads `min(count, len)` entries, each from another position of the set.
pub proof fn lemma_batch_distinct(s: Seq<TrackedResource>, start: int, count: int, i: int, j: int)
    requires
        s.len() > 0,
        0 <= start,
        0 <= count,
        0 <= i < j < batch_at(s, start, count).len(),
    ensures
        batch_at(s, start, count).len() == (if count <= s.len() {
            count
        } else {
            s.len() as int
        }),
        (start + i) % (s.len() as int) != (start + j) % (s.len() as int),
        0 <= (start + i) % (s.len() as int) < s.len(),
        batch_at(s, start, count)[i] == s[(start + i) % (s.len() as int)],
{
    let len = s.len() as int;
    let a = start + i;
    let b = start + j;
    assert(a % len != b % len) by (nonlinear_arith)
        requires
            0 <= a < b,
            b - a < len,
            0 < len,
    {
        let qa = a / len;
        let qb = b / len;
        assert(a == len * qa + a % len);
        assert(b == len * qb + b % len);
        if a % len == b % len {
            assert(b - a == len * (qb - qa));
            assert(qb - qa >= 1 ==> len * (qb - qa) >= len);
            assert(qb - qa <= 0 ==> len * (qb - qa) <= 0);
        }
    }
    assert(0 <= a % len < len) by (nonlinear_arith)
        requires
            0 <= a,
            0 < len,
    ;
}

} // verus!
