//! Applying to the tracked set what the remote service reports.

use vstd::prelude::*;
use crate::resource::{Handle, ResourceChange, TrackedResource};
use crate::tracker::{capped, ResourceTracker};

verus! {

/// The resources that the `Created` effects among `changes` carry, in order.
pub open spec fn created_in(changes: Seq<ResourceChange>) -> Seq<TrackedResource>
    decreases changes.len(),
{
    if changes.len() == 0 {
        Seq::empty()
    } else {
        let earlier = created_in(changes.drop_last());
        match changes.last() {
            ResourceChange::Created(r) => earlier.push(r),
            ResourceChange::Mutated(_) => earlier,
        }
    }
}

/// The position of the first entry of `s` with handle `h`, or the length
/// of `s` where no entry has it.
pub open spec fn first_match(s: Seq<TrackedResource>, h: Handle) -> int
    decreases s.len(),
{
    if s.len() == 0 {
        0
    } else if s[0].handle == h {
        0
    } else {
        1 + first_match(s.drop_first(), h)
    }
}

/// `s` after one reported mutation: the first entry with the reported
/// handle takes the reported version and fingerprint.
pub open spec fn with_mutation(s: Seq<TrackedResource>, r: TrackedResource) -> Seq<
    TrackedResource,
> {
    let at = first_match(s, r.handle);
    if at < s.len() {
        s.update(at, r)
    } else {
        s
    }
}

/// `s` after the `Mutated` effects among `changes`, taken in order.
pub open spec fn after_mutations(s: Seq<TrackedResource>, changes: Seq<ResourceChange>) -> Seq<
    TrackedResource,
>
    decreases changes.len(),
{
    if changes.len() == 0 {
        s
    } else {
        let earlier = after_mutations(s, changes.drop_last());
        match changes.last() {
            ResourceChange::Mutated(r) => with_mutation(earlier, r),
            ResourceChange::Created(_) => earlier,
        }
    }
}

/// Whether some entry of `s` has handle `h`.
pub open spec fn tracks(s: Seq<TrackedResource>, h: Handle) -> bool {
    exists|i: int| 0 <= i < s.len() && (#[trigger] s[i]).handle == h
}

/// How many `Mutated` effects among `changes` name a handle that `s` tracks.
pub open spec fn mutations_found(s: Seq<TrackedResource>, changes: Seq<ResourceChange>) -> nat
    decreases changes.len(),
{
    if changes.len() == 0 {
        0
    } else {
        let earlier = mutations_found(s, changes.drop_last());
        match changes.last() {
            ResourceChange::Mutated(r) => if tracks(s, r.handle) {
                earlier + 1
            } else {
                earlier
            },
            ResourceChange::Created(_) => earlier,
        }
    }
}

/// Counts the resources that `changes` reports as created.
pub fn count_created(changes: &Vec<ResourceChange>) -> (n: usize)
    ensures
        n == created_in(changes@).len(),
{
    let mut n: usize = 0;
    let mut i: usize = 0;
    assert(changes@.take(0) =~= Seq::<ResourceChange>::empty());
    while i < changes.len()
        invariant
            i <= changes@.len(),
            n == created_in(changes@.take(i as int)).len(),
            n <= i,
        decreases changes@.len() - i,
    {
        assert(changes@.take(i + 1).drop_last() =~= changes@.take(i as int));
        assert(changes@.take(i + 1).last() == changes@[i as int]);
        match changes[i] {
            ResourceChange::Created(_) => {
                n = n + 1;
            },
            ResourceChange::Mutated(_) => {},
        }
        i = i + 1;
    }
    assert(changes@.take(i as int) =~= changes@);
    n
}

impl ResourceTracker {
    /// Appends every resource that `changes` reports as created, in order,
    /// until the cap is reached, and counts all that were reported, also
    /// those for which there was no room.
    pub fn apply_create_results(&mut self, changes: &Vec<ResourceChange>) -> (created: u64)
        requires
            old(self).wf(),
        ensures
            final(self).wf(),
            final(self).spec_cap() == old(self).spec_cap(),
            final(self)@ == capped(old(self)@ + created_in(changes@), old(self).spec_cap()),
            created == created_in(changes@).len(),
    {
        let mut count: usize = 0;
        let mut i: usize = 0;
        assert(changes@.take(0) =~= Seq::<ResourceChange>::empty());
        assert(old(self)@ + created_in(changes@.take(0)) =~= old(self)@);
        while i < changes.len()
            invariant
                i <= changes@.len(),
                self.cap == old(self).cap,
                old(self).wf(),
                self.items@ == capped(
                    old(self)@ + created_in(changes@.take(i as int)),
                    self.cap as nat,
                ),
                count == created_in(changes@.take(i as int)).len(),
                count <= i,
            decreases changes@.len() - i,
        {
            let ghost earlier = created_in(changes@.take(i as int));
            assert(changes@.take(i + 1).drop_last() =~= changes@.take(i as int));
            assert(changes@.take(i + 1).last() == changes@[i as int]);
            match changes[i] {
                ResourceChange::Created(r) => {
                    assert(created_in(changes@.take(i + 1)) == earlier.push(r));
                    assert(old(self)@ + earlier.push(r) =~= (old(self)@ + earlier).push(r));
                    if self.items.len() < self.cap {
                        self.items.push(r);
                    }
                    assert(self.items@ =~= capped(
                        (old(self)@ + earlier).push(r),
                        self.cap as nat,
                    ));
                    count = count + 1;
                },
                ResourceChange::Mutated(_) => {},
            }
            i = i + 1;
        }
        assert(changes@.take(i as int) =~= changes@);
        count as u64
    }

    /// Takes over the version and fingerprint of every reported mutation
    /// whose handle is tracked, at the first entry with that handle, and
    /// counts those mutations; a mutation of an unknown handle is passed over.
    pub fn apply_update_results(&mut self, changes: &Vec<ResourceChange>) -> (updated: u64)
        requires
            old(self).wf(),
        ensures
            final(self).wf(),
            final(self).spec_cap() == old(self).spec_cap(),
            final(self)@ == after_mutations(old(self)@, changes@),
            updated == mutations_found(old(self)@, changes@),
            final(self)@.len() == old(self)@.len(),
            forall|k: int|
                0 <= k < old(self)@.len() ==> (#[trigger] final(self)@[k]).handle == old(
                    self,
                )@[k].handle,
            changes@.len() == 0 ==> final(self)@ == old(self)@,
    {
        let mut count: usize = 0;
        let mut i: usize = 0;
        assert(changes@.take(0) =~= Seq::<ResourceChange>::empty());
        while i < changes.len()
            invariant
                i <= changes@.len(),
                self.cap == old(self).cap,
                self.items@.len() == old(self)@.len(),
                forall|k: int|
                    0 <= k < old(self)@.len() ==> (#[trigger] self.items@[k]).handle == old(
                        self,
                    )@[k].handle,
                self.items@ == after_mutations(old(self)@, changes@.take(i as int)),
                count == mutations_found(old(self)@, changes@.take(i as int)),
                count <= i,
            decreases changes@.len() - i,
        {
            assert(changes@.take(i + 1).drop_last() =~= changes@.take(i as int));
            assert(changes@.take(i + 1).last() == changes@[i as int]);
            match changes[i] {
                ResourceChange::Mutated(r) => {
                    let at: usize = self.position_of(r.handle);
                    if at < self.items.len() {
                        assert(old(self)@[at as int].handle == r.handle);
                        self.items.set(at, r);
                        count = count + 1;
                    } else {
                        assert(!tracks(old(self)@, r.handle)) by {
                            if tracks(old(self)@, r.handle) {
                                let w = choose|w: int|
                                    0 <= w < old(self)@.len() && (#[trigger] old(
                                        self,
                                    )@[w]).handle == r.handle;
                                assert(self.items@[w].handle == r.handle);
                            }
                        }
                    }
                },
                ResourceChange::Created(_) => {},
            }
            i = i + 1;
        }
        assert(changes@.take(i as int) =~= changes@);
        count as u64
    }

    /// The position of the first entry with handle `h`, or the size of the
    /// set where none has it.
    fn position_of(&self, h: Handle) -> (at: usize)
        ensures
            at == first_match(self.items@, h),
            at <= self.items@.len(),
            at < self.items@.len() ==> self.items@[at as int].handle == h,
            at == self.items@.len() ==> forall|k: int|
                0 <= k < self.items@.len() ==> (#[trigger] self.items@[k]).handle != h,
    {
        let mut at: usize = 0;
        while at < self.items.len()
            invariant
                at <= self.items@.len(),
                forall|k: int| 0 <= k < at ==> (#[trigger] self.items@[k]).handle != h,
            decreases self.items@.len() - at,
        {
            if self.items[at].handle == h {
                proof {
                    lemma_first_match(self.items@, h, at as int);
                }
                return at;
            }
            at = at + 1;
        }
        proof {
            lemma_first_match(self.items@, h, at as int);
        }
        at
    }

    /// Counts the mutations among `changes` whose handle is tracked.
    pub fn count_found(&self, changes: &Vec<ResourceChange>) -> (n: usize)
        ensures
            n == mutations_found(self@, changes@),
    {
        let mut n: usize = 0;
        let mut i: usize = 0;
        assert(changes@.take(0) =~= Seq::<ResourceChange>::empty());
        while i < changes.len()
            invariant
                i <= changes@.len(),
                n == mutations_found(self@, changes@.take(i as int)),
                n <= i,
            decreases changes@.len() - i,
        {
            assert(changes@.take(i + 1).drop_last() =~= changes@.take(i as int));
            assert(changes@.take(i + 1).last() == changes@[i as int]);
            match changes[i] {
                ResourceChange::Mutated(r) => {
                    let at: usize = self.position_of(r.handle);
                    if at < self.items.len() {
                        n = n + 1;
                    }
                },
                ResourceChange::Created(_) => {},
            }
            i = i + 1;
        }
        assert(changes@.take(i as int) =~= changes@);
        n
    }
}

/// `first_match` is the least position that holds the handle.
pub proof fn lemma_first_match(s: Seq<TrackedResource>, h: Handle, at: int)
    requires
        0 <= at <= s.len(),
        forall|k: int| 0 <= k < at ==> (#[trigger] s[k]).handle != h,
        at < s.len() ==> s[at].handle == h,
    ensures
        first_match(s, h) == at,
    decreases s.len(),
{
    if s.len() > 0 && at > 0 {
        let rest = s.drop_first();
        assert forall|k: int| 0 <= k < at - 1 implies (#[trigger] rest[k]).handle != h by {
            assert(rest[k] == s[k + 1]);
        }
        assert(s[0].handle != h);
        lemma_first_match(rest, h, at - 1);
    }
}

/// `first_match` points at an entry with the handle, or past the end.
pub proof fn lemma_first_match_points(s: Seq<TrackedResource>, h: Handle)
    ensures
        0 <= first_match(s, h) <= s.len(),
        first_match(s, h) < s.len() ==> s[first_match(s, h)].handle == h,
        first_match(s, h) == s.len() ==> !tracks(s, h),
        forall|k: int| 0 <= k < first_match(s, h) ==> (#[trigger] s[k]).handle != h,
    decreases s.len(),
{
    if s.len() > 0 && s[0].handle != h {
        let rest = s.drop_first();
        lemma_first_match_points(rest, h);
        let at = first_match(rest, h);
        if at < rest.len() {
            assert(rest[at] == s[at + 1]);
        }
        assert forall|k: int| 0 <= k < first_match(s, h) implies (#[trigger] s[k]).handle
            != h by {
            if k > 0 {
                assert(rest[k - 1] == s[k]);
            }
        }
        if first_match(s, h) == s.len() && tracks(s, h) {
            let w = choose|w: int| 0 <= w < s.len() && (#[trigger] s[w]).handle == h;
            assert(s[w].handle == h);
        }
    }
}

/// Whether `change` reports a mutation of the resource with handle `h`.
pub open spec fn mutates(change: ResourceChange, h: Handle) -> bool {
    change matches ResourceChange::Mutated(r) && r.handle == h
}

/// Whether some change among `changes` reports a mutation of handle `h`.
pub open spec fn names(changes: Seq<ResourceChange>, h: Handle) -> bool {
    exists|i: int| 0 <= i < changes.len() && mutates(#[trigger] changes[i], h)
}

/// Mutations never add, drop or move an entry and never change a handle;
/// an entry whose handle no reported mutation names stays as it is.
pub proof fn lemma_mutations_keep_shape(s: Seq<TrackedResource>, changes: Seq<ResourceChange>)
    ensures
        after_mutations(s, changes).len() == s.len(),
        forall|k: int|
            0 <= k < s.len() ==> (#[trigger] after_mutations(s, changes)[k]).handle
                == s[k].handle,
        forall|k: int|
            0 <= k < s.len() && !names(changes, s[k].handle) ==> (#[trigger] after_mutations(
                s,
                changes,
            )[k]) == s[k],
    decreases changes.len(),
{
    if changes.len() > 0 {
        let earlier_changes = changes.drop_last();
        lemma_mutations_keep_shape(s, earlier_changes);
        let earlier = after_mutations(s, earlier_changes);
        match changes.last() {
            ResourceChange::Mutated(r) => {
                lemma_first_match_points(earlier, r.handle);
            },
            ResourceChange::Created(_) => {},
        }
        assert forall|k: int| 0 <= k < s.len() && !names(changes, s[k].handle) implies (
        #[trigger] after_mutations(s, changes)[k]) == s[k] by {
            if names(earlier_changes, s[k].handle) {
                let i = choose|i: int|
                    0 <= i < earlier_changes.len() && mutates(
                        #[trigger] earlier_changes[i],
                        s[k].handle,
                    );
                assert(mutates(changes[i], s[k].handle));
            }
            assert(earlier[k] == s[k]);
            assert(!mutates(changes[changes.len() - 1], s[k].handle));
        }
    }
}

} // verus!
