//! The bounded set of remote resources that one worker keeps track of.
//!
//! The set is a sequence: entries keep the order in which they were
//! appended, eviction keeps a prefix, and a batch is read round-robin
//! from a starting position.

pub mod effects;
pub mod refresh;
pub mod selection;

use vstd::prelude::*;
use crate::resource::TrackedResource;

verus! {

/// Below or at this size the tracked set is never evicted from.
pub const EVICTION_FLOOR: usize = 50;

/// Why a batch could not be selected.
#[derive(Clone, Copy, Debug, PartialEq, Eq, Structural)]
pub enum TrackerError {
    /// The tracked set holds nothing to update.
    EmptyPool,
}

#[derive(Clone, Debug)]
pub struct ResourceTracker {
    cap: usize,
    items: Vec<TrackedResource>,
}

/// What a sequence of tracked entries becomes when `r` is appended under `cap`.
pub open spec fn appended(s: Seq<TrackedResource>, cap: nat, r: TrackedResource) -> Seq<
    TrackedResource,
> {
    if s.len() < cap {
        s.push(r)
    } else {
        s
    }
}

/// What `s` becomes when the resources of `items` are appended one by one under `cap`.
pub open spec fn appended_all(s: Seq<TrackedResource>, cap: nat, items: Seq<TrackedResource>)
    -> Seq<TrackedResource>
    decreases items.len(),
{
    if items.len() == 0 {
        s
    } else {
        appended(appended_all(s, cap, items.drop_last()), cap, items.last())
    }
}

/// The first `cap` entries of `s`, or all of `s` where it is shorter.
pub open spec fn capped(s: Seq<TrackedResource>, cap: nat) -> Seq<TrackedResource> {
    if s.len() <= cap {
        s
    } else {
        s.take(cap as int)
    }
}

/// How many of `len` entries stay when `percent` of them are to be dropped.
pub open spec fn retained(len: nat, percent: nat) -> nat {
    if len > EVICTION_FLOOR {
        (len * (100 - percent) / 100) as nat
    } else {
        len
    }
}

impl View for ResourceTracker {
    type V = Seq<TrackedResource>;

    closed spec fn view(&self) -> Seq<TrackedResource> {
        self.items@
    }
}

impl ResourceTracker {
    /// The largest number of entries the set may hold.
    pub closed spec fn spec_cap(&self) -> nat {
        self.cap as nat
    }

    /// The set never holds more than its cap.
    pub open spec fn wf(&self) -> bool {
        self@.len() <= self.spec_cap()
    }

    pub fn new(cap: usize) -> (t: Self)
        ensures
            t.wf(),
            t@ == Seq::<TrackedResource>::empty(),
            t.spec_cap() == cap,
    {
        ResourceTracker { cap, items: Vec::new() }
    }

    pub fn cap(&self) -> (c: usize)
        ensures
            c == self.spec_cap(),
    {
        self.cap
    }

    pub fn len(&self) -> (n: usize)
        ensures
            n == self@.len(),
    {
        self.items.len()
    }

    pub fn is_empty(&self) -> (b: bool)
        ensures
            b == (self@.len() == 0),
    {
        self.items.len() == 0
    }

    /// The entry at position `index`, if there is one.
    pub fn get(&self, index: usize) -> (r: Option<TrackedResource>)
        ensures
            r == (if index < self@.len() {
                Some(self@[index as int])
            } else {
                None
            }),
    {
        if index < self.items.len() {
            Some(self.items[index])
        } else {
            None
        }
    }

    /// Adds `resource` at the end while the set is under its cap; a full set
    /// stays as it is.
    pub fn append(&mut self, resource: TrackedResource)
        requires
            old(self).wf(),
        ensures
            final(self).wf(),
            final(self).spec_cap() == old(self).spec_cap(),
            final(self)@ == appended(old(self)@, old(self).spec_cap(), resource),
    {
        if self.items.len() < self.cap {
            self.items.push(resource);
        }
    }

    /// Drops `percent` percent of the set from its end, rounding the number
    /// kept down; a set of at most `EVICTION_FLOOR` entries is left alone.
    pub fn evict(&mut self, percent: u8)
        requires
            old(self).wf(),
            percent <= 100,
        ensures
            final(self).wf(),
            final(self).spec_cap() == old(self).spec_cap(),
            final(self)@ == old(self)@.take(retained(old(self)@.len(), percent as nat) as int),
            final(self)@.len() == retained(old(self)@.len(), percent as nat),
            old(self)@.len() <= EVICTION_FLOOR ==> final(self)@ == old(self)@,
    {
        let before: usize = self.items.len();
        proof {
            lemma_retained_bounds(before as nat, percent as nat);
        }
        if before > EVICTION_FLOOR {
            let share: u128 = (before as u128) * ((100 - percent) as u128) / 100;
            let keep: usize = share as usize;
            self.items.truncate(keep);
        } else {
            assert(self.items@.take(before as int) =~= self.items@);
        }
    }

    /// A set under `cap` that holds `resources` in order, as far as the cap allows.
    pub fn from_resources(cap: usize, resources: Vec<TrackedResource>) -> (t: Self)
        ensures
            t.wf(),
            t.spec_cap() == cap,
            t@ == capped(resources@, cap as nat),
    {
        let mut items = resources;
        if items.len() > cap {
            items.truncate(cap);
        }
        ResourceTracker { cap, items }
    }

    /// The tracked entries, in order.
    pub fn resources(&self) -> (v: Vec<TrackedResource>)
        ensures
            v@ == self@,
    {
        let mut v: Vec<TrackedResource> = Vec::new();
        let mut i: usize = 0;
        while i < self.items.len()
            invariant
                i <= self.items@.len(),
                v@ == self.items@.take(i as int),
            decreases self.items@.len() - i,
        {
            v.push(self.items[i]);
            assert(self.items@.take(i + 1) =~= self.items@.take(i as int).push(
                self.items@[i as int],
            ));
            i = i + 1;
        }
        assert(self.items@.take(i as int) =~= self.items@);
        v
    }
}

/// Eviction never asks for more entries than there are.
pub proof fn lemma_retained_bounds(len: nat, percent: nat)
    requires
        percent <= 100,
    ensures
        retained(len, percent) <= len,
        len <= EVICTION_FLOOR ==> retained(len, percent) == len,
        len > EVICTION_FLOOR ==> retained(len, percent) == len * (100 - percent) / 100,
{
    if len > EVICTION_FLOOR {
        assert(len * (100 - percent) <= len * 100) by (nonlinear_arith)
            requires
                percent <= 100,
        ;
        assert(len * (100 - percent) >= 0) by (nonlinear_arith)
            requires
                percent <= 100,
        ;
    }
}

/// However many resources are appended to a set within its cap, the set
/// stays within its cap: it is what fits of the old entries followed by
/// the new ones.
pub proof fn lemma_appends_respect_cap(
    s: Seq<TrackedResource>,
    cap: nat,
    items: Seq<TrackedResource>,
)
    requires
        s.len() <= cap,
    ensures
        appended_all(s, cap, items).len() <= cap,
        appended_all(s, cap, items) == capped(s + items, cap),
    decreases items.len(),
{
    if items.len() == 0 {
        assert(s + items =~= s);
    } else {
        let earlier = items.drop_last();
        lemma_appends_respect_cap(s, cap, earlier);
        assert(s + items =~= (s + earlier).push(items.last()));
        assert(appended(capped(s + earlier, cap), cap, items.last()) =~= capped(
            (s + earlier).push(items.last()),
            cap,
        ));
    }
}

} // verus!
