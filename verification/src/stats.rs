//! Counters of a run, and the progress line made from them.

use vstd::prelude::*;
use vstd::string::*;
use crate::clock::{elapsed_since, now, whole_millis};
use crate::text::{append_decimal, append_fixed1, decimal, fixed1};

verus! {

/// The five counters of a run at one moment.
#[derive(Clone, Copy, Debug, PartialEq, Eq, Structural)]
pub struct Tally {
    /// Batches handed to the remote service, whatever came of them.
    pub submitted: u64,
    /// Batches that the remote service accepted.
    pub succeeded: u64,
    /// Batches that failed.
    pub failed: u64,
    /// Resources reported as created.
    pub created: u64,
    /// Resources reported as mutated and found in a tracked set.
    pub updated: u64,
}

/// The counters of a run, with the moment the run began.
#[derive(Debug)]
pub struct BenchStats {
    tally: Tally,
    start_time: std::time::Instant,
}

/// Events per second in tenths, rounded to the nearest tenth, halves
/// up; zero before any time has passed.
pub open spec fn rate_tenths(count: nat, elapsed_ms: nat) -> nat {
    if elapsed_ms == 0 {
        0
    } else {
        (count * 10_000 + elapsed_ms / 2) / elapsed_ms
    }
}

/// Milliseconds in tenths of a second, rounded to the nearest tenth, halves up.
pub open spec fn tenths_of_seconds(elapsed_ms: nat) -> nat {
    if elapsed_ms % 100 >= 50 {
        elapsed_ms / 100 + 1
    } else {
        elapsed_ms / 100
    }
}

/// The progress line for `tally` after `elapsed_ms` milliseconds.
pub open spec fn report_text(tally: Tally, elapsed_ms: nat) -> Seq<char> {
    "Elapsed: "@ + fixed1(tenths_of_seconds(elapsed_ms)) + "s | TX: "@ + decimal(tally.submitted as nat)
        + " submitted, "@ + decimal(tally.succeeded as nat) + " success, "@ + decimal(
        tally.failed as nat,
    ) + " failed | TPS: "@ + fixed1(rate_tenths(tally.succeeded as nat, elapsed_ms))
        + " | Objects: "@ + decimal(tally.created as nat) + " created, "@ + decimal(
        tally.updated as nat,
    ) + " updated | Ops/s: "@ + fixed1(
        rate_tenths((tally.created + tally.updated) as nat, elapsed_ms),
    )
}

impl Tally {
    /// Every outcome that was counted belongs to a submission that was counted.
    pub open spec fn consistent(self) -> bool {
        self.succeeded + self.failed <= self.submitted
    }

    /// The tally after one more accepted batch.
    pub open spec fn after_success(self, created: nat, updated: nat) -> Tally {
        Tally {
            submitted: (self.submitted + 1) as u64,
            succeeded: (self.succeeded + 1) as u64,
            failed: self.failed,
            created: (self.created + created) as u64,
            updated: (self.updated + updated) as u64,
        }
    }

    /// The tally after one more failed batch.
    pub open spec fn after_failure(self) -> Tally {
        Tally {
            submitted: (self.submitted + 1) as u64,
            succeeded: self.succeeded,
            failed: (self.failed + 1) as u64,
            created: self.created,
            updated: self.updated,
        }
    }

    /// Every submission that was counted has its outcome counted too.
    pub open spec fn balanced(self) -> bool {
        self.succeeded + self.failed == self.submitted
    }

    /// Whether `self` is `before` with exactly one more batch counted:
    /// one more submission, one more of either successes or failures, and
    /// no fewer resources created or updated.
    pub open spec fn one_more_than(self, before: Tally) -> bool {
        &&& self.submitted == before.submitted + 1
        &&& (self.succeeded == before.succeeded + 1 && self.failed == before.failed) || (
        self.succeeded == before.succeeded && self.failed == before.failed + 1)
        &&& self.created >= before.created
        &&& self.updated >= before.updated
    }

    /// Whether no counter of `self` is below that of `before`.
    pub open spec fn never_below(self, before: Tally) -> bool {
        &&& self.submitted >= before.submitted
        &&& self.succeeded >= before.succeeded
        &&& self.failed >= before.failed
        &&& self.created >= before.created
        &&& self.updated >= before.updated
    }

    /// Whether one more batch with these counts fits the counters.
    pub open spec fn has_room(self, created: nat, updated: nat) -> bool {
        &&& self.submitted < u64::MAX
        &&& self.created + created <= u64::MAX
        &&& self.updated + updated <= u64::MAX
    }
}

impl View for BenchStats {
    type V = Tally;

    closed spec fn view(&self) -> Tally {
        self.tally
    }
}

fn tenths_per_second(count: u128, elapsed_ms: u128) -> (r: u128)
    requires
        count <= 0x2_0000_0000_0000_0000,
    ensures
        r == rate_tenths(count as nat, elapsed_ms as nat),
{
    if elapsed_ms == 0 {
        0
    } else {
        (count * 10_000 + elapsed_ms / 2) / elapsed_ms
    }
}

fn rounded_tenths(elapsed_ms: u128) -> (r: u128)
    ensures
        r == tenths_of_seconds(elapsed_ms as nat),
{
    if elapsed_ms % 100 >= 50 {
        elapsed_ms / 100 + 1
    } else {
        elapsed_ms / 100
    }
}

impl BenchStats {
    pub open spec fn wf(&self) -> bool {
        self@.consistent()
    }

    /// The moment the run began. It is fixed when the counters are made.
    pub closed spec fn started(&self) -> std::time::Instant {
        self.start_time
    }

    /// Counters at zero, and the clock read as the start of the run.
    pub fn new() -> (s: Self)
        ensures
            s.wf(),
            s@ == (Tally { submitted: 0, succeeded: 0, failed: 0, created: 0, updated: 0 }),
    {
        BenchStats {
            tally: Tally { submitted: 0, succeeded: 0, failed: 0, created: 0, updated: 0 },
            start_time: now(),
        }
    }

    pub fn snapshot(&self) -> (t: Tally)
        ensures
            t == self@,
    {
        self.tally
    }

    /// Whether one more batch with these counts fits the counters.
    pub fn can_record(&self, created: u64, updated: u64) -> (b: bool)
        ensures
            b == self@.has_room(created as nat, updated as nat),
    {
        self.tally.submitted < u64::MAX && created <= u64::MAX - self.tally.created && updated
            <= u64::MAX - self.tally.updated
    }

    /// Counts one accepted batch and what it created and updated.
    pub fn record_success(&mut self, created: u64, updated: u64)
        requires
            old(self).wf(),
            old(self)@.has_room(created as nat, updated as nat),
        ensures
            final(self).wf(),
            final(self)@ == old(self)@.after_success(created as nat, updated as nat),
            final(self)@.submitted == old(self)@.submitted + 1,
            final(self)@.succeeded == old(self)@.succeeded + 1,
            final(self)@.created == old(self)@.created + created,
            final(self)@.updated == old(self)@.updated + updated,
            final(self)@.one_more_than(old(self)@),
            final(self).started() == old(self).started(),
    {
        self.tally = Tally {
            submitted: self.tally.submitted + 1,
            succeeded: self.tally.succeeded + 1,
            failed: self.tally.failed,
            created: self.tally.created + created,
            updated: self.tally.updated + updated,
        };
    }

    /// Counts one failed batch.
    pub fn record_failure(&mut self)
        requires
            old(self).wf(),
            old(self)@.submitted < u64::MAX,
        ensures
            final(self).wf(),
            final(self)@ == old(self)@.after_failure(),
            final(self)@.submitted == old(self)@.submitted + 1,
            final(self)@.failed == old(self)@.failed + 1,
            final(self)@.one_more_than(old(self)@),
            final(self).started() == old(self).started(),
    {
        self.tally = Tally {
            submitted: self.tally.submitted + 1,
            succeeded: self.tally.succeeded,
            failed: self.tally.failed + 1,
            created: self.tally.created,
            updated: self.tally.updated,
        };
    }

    /// Milliseconds since the run began, as the clock has it now.
    pub fn elapsed_ms(&self) -> (ms: u128) {
        let span = elapsed_since(&self.start_time);
        whole_millis(&span)
    }

    /// The progress line for the counters after `elapsed_ms` milliseconds.
    pub fn report_at(&self, elapsed_ms: u128) -> (line: String)
        ensures
            line@ == report_text(self@, elapsed_ms as nat),
    {
        let t: Tally = self.tally;
        let mut line = String::new();
        line.append("Elapsed: ");
        append_fixed1(&mut line, rounded_tenths(elapsed_ms));
        line.append("s | TX: ");
        append_decimal(&mut line, t.submitted as u128);
        line.append(" submitted, ");
        append_decimal(&mut line, t.succeeded as u128);
        line.append(" success, ");
        append_decimal(&mut line, t.failed as u128);
        line.append(" failed | TPS: ");
        append_fixed1(&mut line, tenths_per_second(t.succeeded as u128, elapsed_ms));
        line.append(" | Objects: ");
        append_decimal(&mut line, t.created as u128);
        line.append(" created, ");
        append_decimal(&mut line, t.updated as u128);
        line.append(" updated | Ops/s: ");
        append_fixed1(
            &mut line,
            tenths_per_second(t.created as u128 + t.updated as u128, elapsed_ms),
        );
        assert(line@ =~= report_text(self@, elapsed_ms as nat));
        line
    }

    /// The progress line for the counters at the time of the call.
    pub fn report(&self) -> (line: String)
        ensures
            exists|elapsed_ms: nat| line@ == #[trigger] report_text(self@, elapsed_ms),
    {
        let elapsed: u128 = self.elapsed_ms();
        let line = self.report_at(elapsed);
        assert(line@ == report_text(self@, elapsed as nat));
        line
    }
}

/// The number of submissions covers the outcomes counted, and each
/// counted batch raises it by one.
pub proof fn lemma_tally_monotone(t: Tally, created: nat, updated: nat)
    requires
        t.consistent(),
        t.has_room(created, updated),
    ensures
        t.submitted >= t.succeeded + t.failed,
        t.after_success(created, updated).consistent(),
        t.after_failure().consistent(),
        t.after_success(created, updated).submitted == t.submitted + 1,
        t.after_failure().submitted == t.submitted + 1,
        t.after_success(created, updated).one_more_than(t),
        t.after_failure().one_more_than(t),
{
}

/// However one more batch is counted, no counter falls, counters that
/// covered every outcome still do, and counters that were balanced are
/// balanced again.
pub proof fn lemma_one_more_keeps_order(before: Tally, after: Tally)
    requires
        after.one_more_than(before),
    ensures
        after.never_below(before),
        after.submitted == before.submitted + 1,
        after.succeeded + after.failed == before.succeeded + before.failed + 1,
        before.consistent() ==> after.consistent(),
        before.balanced() ==> after.balanced(),
{
}

/// Counting batches one after another, by whatever workers, never
/// lowers a counter and keeps the submissions covering the outcomes:
/// `history` holds the counters as they were after each batch.
pub proof fn lemma_history_keeps_order(history: Seq<Tally>, earlier: int, later: int)
    requires
        forall|i: int|
            0 <= i < history.len() - 1 ==> (#[trigger] history[i + 1]).one_more_than(history[i]),
        0 <= earlier <= later < history.len(),
    ensures
        history[later].never_below(history[earlier]),
        history[later].submitted == history[earlier].submitted + (later - earlier),
        history[earlier].consistent() ==> history[later].consistent(),
        history[earlier].balanced() ==> history[later].balanced(),
    decreases later - earlier,
{
    if earlier < later {
        lemma_history_keeps_order(history, earlier, later - 1);
        assert(history[later - 1 + 1].one_more_than(history[later - 1]));
        lemma_one_more_keeps_order(history[later - 1], history[later]);
    }
}

} // verus!
