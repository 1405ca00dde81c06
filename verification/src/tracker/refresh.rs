//! Bringing the tracked set up to date with the remote service.

use vstd::prelude::*;
use crate::resource::{Handle, ResourceStamp, TrackedResource};
use crate::tracker::ResourceTracker;

verus! {

/// How many handles one refresh query asks the remote service about.
pub const REFRESH_CHUNK: usize = 50;

/// The handles of the entries of `s` from position `start` on, at most
/// `REFRESH_CHUNK` of them.
pub open spec fn chunk_handles(s: Seq<TrackedResource>, start: int) -> Seq<Handle> {
    let end = if start + REFRESH_CHUNK <= s.len() {
        start + REFRESH_CHUNK
    } else {
        s.len() as int
    };
    if 0 <= start < s.len() {
        Seq::new((end - start) as nat, |i: int| s[start + i].handle)
    } else {
        Seq::empty()
    }
}

/// The entries of `s` that the remote service still knows, each with the
/// version and fingerprint it answered. `answers[i]` speaks of `s[i]`; an
/// entry without an answer counts as gone.
pub open spec fn refreshed(s: Seq<TrackedResource>, answers: Seq<Option<ResourceStamp>>) -> Seq<
    TrackedResource,
>
    decreases s.len(),
{
    if s.len() == 0 {
        Seq::empty()
    } else {
        let earlier = refreshed(s.drop_last(), answers);
        let at = s.len() - 1;
        if at < answers.len() && answers[at] is Some {
            earlier.push(
                TrackedResource {
                    handle: s[at].handle,
                    version: answers[at]->Some_0.version,
                    fingerprint: answers[at]->Some_0.fingerprint,
                },
            )
        } else {
            earlier
        }
    }
}

impl ResourceTracker {
    /// The handles to ask the remote service about in the query that
    /// begins at position `start`; none once `start` is past the end.
    pub fn refresh_query(&self, start: usize) -> (handles: Vec<Handle>)
        ensures
            handles@ == chunk_handles(self@, start as int),
    {
        let len: usize = self.items.len();
        let mut handles: Vec<Handle> = Vec::new();
        if start >= len {
            return handles;
        }
        let end: usize = if len - start >= REFRESH_CHUNK {
            start + REFRESH_CHUNK
        } else {
            len
        };
        let mut i: usize = start;
        while i < end
            invariant
                start <= i <= end <= len,
                len == self.items@.len(),
                handles@.len() == i - start,
                forall|k: int|
                    0 <= k < i - start ==> handles@[k] == self.items@[start + k].handle,
            decreases end - i,
        {
            handles.push(self.items[i].handle);
            i = i + 1;
        }
        assert(handles@ =~= chunk_handles(self@, start as int));
        handles
    }

    /// Replaces the set by those of its entries that the remote service
    /// still knows, in their order, with the versions and fingerprints it
    /// answered.
    pub fn apply_refresh(&mut self, answers: &Vec<Option<ResourceStamp>>)
        requires
            old(self).wf(),
        ensures
            final(self).wf(),
            final(self).spec_cap() == old(self).spec_cap(),
            final(self)@ == refreshed(old(self)@, answers@),
    {
        let mut kept: Vec<TrackedResource> = Vec::new();
        let mut i: usize = 0;
        assert(self.items@.take(0) =~= Seq::<TrackedResource>::empty());
        while i < self.items.len()
            invariant
                i <= self.items@.len(),
                self.items@ == old(self)@,
                self.cap == old(self).cap,
                kept@ == refreshed(self.items@.take(i as int), answers@),
            decreases self.items@.len() - i,
        {
            assert(self.items@.take(i + 1).drop_last() =~= self.items@.take(i as int));
            assert(self.items@.take(i + 1).last() == self.items@[i as int]);
            if i < answers.len() {
                match answers[i] {
                    Some(stamp) => {
                        kept.push(
                            TrackedResource {
                                handle: self.items[i].handle,
                                version: stamp.version,
                                fingerprint: stamp.fingerprint,
                            },
                        );
                    },
                    None => {},
                }
            }
            i = i + 1;
        }
        assert(self.items@.take(i as int) =~= self.items@);
        proof {
            lemma_refreshed_len(old(self)@, answers@);
        }
        self.items = kept;
    }
}

/// A refresh never makes the set longer.
pub proof fn lemma_refreshed_len(s: Seq<TrackedResource>, answers: Seq<Option<ResourceStamp>>)
    ensures
        refreshed(s, answers).len() <= s.len(),
    decreases s.len(),
{
    if s.len() > 0 {
        lemma_refreshed_len(s.drop_last(), answers);
    }
}

} // verus!
