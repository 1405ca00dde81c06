//! The worker loop as a state machine. The machine decides; whoever drives
//! it sleeps, waits for a permit, and talks to the remote service, and
//! then reports back what happened.
//!
//! One round of the loop: `on_signals` at the loop head, `on_admitted`
//! once a permit is held, `on_completed` once the batch has come back.

use vstd::prelude::*;
use crate::backoff::{backoff_delay, BackoffPolicy, FailureBackoff};
use crate::entropy::{draw_below, fresh_generator};
use crate::pressure::PressureLevel;
use crate::rate::{
    band_of, failure_band, pause_of, FailureBand, CRITICAL_PAUSE_MS, ELEVATED_PAUSE_MS,
};
use crate::stats::{BenchStats, Tally};
use crate::tracker::effects::{after_mutations, count_created, created_in, mutations_found};
use crate::tracker::selection::batch_at;
use crate::tracker::{capped, retained};
use crate::worker::{
    effective_batch, pacing_of, BatchOutcome, Operation, WorkerConfig, WorkerState,
    NANOS_PER_MILLI,
};

verus! {

/// Wait at the loop head when only updates are allowed and nothing is
/// tracked, in milliseconds.
pub const EMPTY_POOL_WAIT_MS: u64 = 1000;

/// The bound of the draw that decides between create and update.
pub const ROLL_BOUND: usize = 100;

/// Where a worker stands in its loop.
#[derive(Clone, Copy, Debug, PartialEq, Eq, Structural)]
pub enum Phase {
    /// At the loop head: the next thing to learn is the signals.
    AwaitSignals,
    /// Waiting to be admitted; `forced_update` where creates are held back.
    AwaitPermit { forced_update: bool },
    /// A batch is with the remote service; `creating` tells its kind.
    AwaitOutcome { creating: bool },
    /// The loop has ended.
    Stopped,
}

/// What the driver of the machine has to do next.
#[derive(Clone, Debug, PartialEq, Eq)]
pub enum Action {
    /// Sleep `pause_ns` nanoseconds, then read the signals and call `on_signals`.
    Poll { pause_ns: u128 },
    /// Sleep `pause_ns` nanoseconds, then wait for a permit and call
    /// `on_admitted`. `band` is the failure band that was found.
    Admit { pause_ns: u128, band: FailureBand },
    /// Submit `operation` and call `on_completed` with what came of it.
    Submit { operation: Operation },
    /// Leave the loop.
    Stop,
}

/// What a worker reads at the loop head.
#[derive(Clone, Copy, Debug, PartialEq, Eq, Structural)]
pub struct LoopSignals {
    pub stop_requested: bool,
    pub deadline_passed: bool,
    pub level: PressureLevel,
}

#[derive(Debug)]
pub struct WorkerMachine {
    config: WorkerConfig,
    phase: Phase,
    backoff: FailureBackoff,
    generator: rand::rngs::StdRng,
}

/// The action at the loop head, for a worker that keeps `kept` entries
/// after eviction, while `tally` is what all workers have counted.
pub open spec fn signals_action(signals: LoopSignals, kept: nat, tally: Tally) -> Action {
    let delay = signals.level.spec_throttle().delay_ms;
    let band = band_of(tally.submitted as nat, tally.failed as nat);
    if signals.stop_requested || signals.deadline_passed {
        Action::Stop
    } else if signals.level == PressureLevel::Emergency {
        if kept == 0 {
            Action::Poll { pause_ns: ((delay + EMPTY_POOL_WAIT_MS) * NANOS_PER_MILLI) as u128 }
        } else {
            Action::Admit { pause_ns: (delay * NANOS_PER_MILLI) as u128, band: FailureBand::Calm }
        }
    } else {
        Action::Admit { pause_ns: ((delay + pause_of(band)) * NANOS_PER_MILLI) as u128, band }
    }
}

/// The phase that follows the loop head.
pub open spec fn signals_phase(signals: LoopSignals, kept: nat) -> Phase {
    if signals.stop_requested || signals.deadline_passed {
        Phase::Stopped
    } else if signals.level == PressureLevel::Emergency {
        if kept == 0 {
            Phase::AwaitSignals
        } else {
            Phase::AwaitPermit { forced_update: true }
        }
    } else {
        Phase::AwaitPermit { forced_update: false }
    }
}

/// The pause after a batch that was counted as the `failures`-th failure
/// in a row, in nanoseconds.
pub open spec fn failure_pause(policy: BackoffPolicy, failures: nat, config: WorkerConfig)
    -> nat {
    (backoff_delay(policy, failures) * NANOS_PER_MILLI + pacing_of(config)) as nat
}

impl WorkerMachine {
    pub closed spec fn config(&self) -> WorkerConfig {
        self.config
    }

    pub closed spec fn phase(&self) -> Phase {
        self.phase
    }

    pub closed spec fn policy(&self) -> BackoffPolicy {
        self.backoff.policy()
    }

    /// Failures of this worker since its last success.
    pub closed spec fn failures(&self) -> nat {
        self.backoff.failures()
    }

    /// Whether the machine kept its configuration and its backoff policy.
    pub open spec fn same_setup(&self, other: &WorkerMachine) -> bool {
        self.config() == other.config() && self.policy() == other.policy()
    }

    /// A machine at the loop head that has seen no failure.
    pub fn new(config: WorkerConfig, policy: BackoffPolicy) -> (m: Self)
        ensures
            m.config() == config,
            m.policy() == policy,
            m.phase() == Phase::AwaitSignals,
            m.failures() == 0,
    {
        WorkerMachine {
            config,
            phase: Phase::AwaitSignals,
            backoff: FailureBackoff::new(policy),
            generator: fresh_generator(),
        }
    }

    pub fn current_phase(&self) -> (p: Phase)
        ensures
            p == self.phase(),
    {
        self.phase
    }

    pub fn consecutive_failures(&self) -> (n: u32)
        ensures
            n == self.failures(),
    {
        self.backoff.consecutive_failures()
    }

    /// Whether one more failed batch can be counted, here and in `stats`.
    pub fn can_count_failure(&self, stats: &BenchStats) -> (b: bool)
        ensures
            b == (self.failures() < u32::MAX && stats@.submitted < u64::MAX),
    {
        self.backoff.can_count() && stats.snapshot().submitted < u64::MAX
    }

    /// The loop head. A stop request or a passed deadline ends the loop.
    /// Otherwise the worker sheds tracked entries as the pressure level
    /// asks and learns how long to pause; under emergency pressure it goes
    /// on to an update, or back to the loop head if it tracks nothing.
    pub fn on_signals(
        &mut self,
        worker: &mut WorkerState,
        stats: &BenchStats,
        signals: LoopSignals,
    ) -> (action: Action)
        requires
            old(self).phase() == Phase::AwaitSignals,
            old(worker).wf(),
        ensures
            final(self).same_setup(old(self)),
            final(self).failures() == old(self).failures(),
            final(worker).wf(),
            final(worker).id == old(worker).id,
            final(worker).identity == old(worker).identity,
            final(worker).fee == old(worker).fee,
            final(worker).tracker.spec_cap() == old(worker).tracker.spec_cap(),
            signals.stop_requested || signals.deadline_passed ==> final(worker).tracker@ == old(
                worker,
            ).tracker@,
            !(signals.stop_requested || signals.deadline_passed) ==> final(worker).tracker@ == old(
                worker,
            ).tracker@.take(
                retained(
                    old(worker).tracker@.len(),
                    signals.level.spec_throttle().evict_percent as nat,
                ) as int,
            ),
            action == signals_action(signals, final(worker).tracker@.len(), stats@),
            final(self).phase() == signals_phase(signals, final(worker).tracker@.len()),
    {
        if signals.stop_requested || signals.deadline_passed {
            self.phase = Phase::Stopped;
            return Action::Stop;
        }
        let throttle = signals.level.throttle();
        worker.tracker.evict(throttle.evict_percent);
        if throttle.suppress_creates {
            if worker.tracker.is_empty() {
                self.phase = Phase::AwaitSignals;
                return Action::Poll {
                    pause_ns: ((throttle.delay_ms + EMPTY_POOL_WAIT_MS) as u128) * NANOS_PER_MILLI,
                };
            }
            self.phase = Phase::AwaitPermit { forced_update: true };
            return Action::Admit {
                pause_ns: (throttle.delay_ms as u128) * NANOS_PER_MILLI,
                band: FailureBand::Calm,
            };
        }
        let tally = stats.snapshot();
        let band = failure_band(tally.submitted, tally.failed);
        let rate_pause: u64 = match band {
            FailureBand::Calm => 0,
            FailureBand::Elevated => ELEVATED_PAUSE_MS,
            FailureBand::Critical => CRITICAL_PAUSE_MS,
        };
        self.phase = Phase::AwaitPermit { forced_update: false };
        Action::Admit {
            pause_ns: ((throttle.delay_ms + rate_pause) as u128) * NANOS_PER_MILLI,
            band,
        }
    }
}

/// What being admitted leaves behind when the draw for the kind of batch
/// gave `roll` and the draw for the start of an update batch gave `start`:
/// a create batch if creates are allowed and `roll` is below the create
/// percentage, else an update batch read from `start`; and if an update is
/// due but nothing is tracked, a failure that is counted without a submission.
pub open spec fn admitted_as(
    pre: &WorkerMachine,
    post: &WorkerMachine,
    worker: &WorkerState,
    before: Tally,
    after: Tally,
    action: Action,
    roll: nat,
    start: int,
) -> bool {
    let forced = pre.phase()->forced_update;
    let creating = !forced && roll < pre.config().create_percent;
    let count = effective_batch(pre.config());
    &&& post.same_setup(pre)
    &&& if creating {
        &&& action == (Action::Submit { operation: Operation::Create { count: count as usize } })
        &&& post.phase() == (Phase::AwaitOutcome { creating: true })
        &&& post.failures() == pre.failures()
        &&& after == before
    } else if worker.tracker@.len() > 0 {
        &&& action matches Action::Submit { operation }
        &&& operation matches Operation::Update { batch }
        &&& batch@ == batch_at(worker.tracker@, start, count as int)
        &&& post.phase() == (Phase::AwaitOutcome { creating: false })
        &&& post.failures() == pre.failures()
        &&& after == before
    } else {
        &&& action == (Action::Poll {
            pause_ns: failure_pause(pre.policy(), pre.failures() + 1, pre.config()) as u128,
        })
        &&& post.phase() == Phase::AwaitSignals
        &&& post.failures() == pre.failures() + 1
        &&& after == before.after_failure()
    }
}

/// Whether `outcome` can be counted: the counters have room for it.
pub open spec fn completable(
    machine: &WorkerMachine,
    worker: &WorkerState,
    tally: Tally,
    outcome: &BatchOutcome,
) -> bool {
    match *outcome {
        BatchOutcome::Accepted { fee, changes } => if machine.phase()->creating {
            tally.has_room(created_in(changes@).len(), 0)
        } else {
            tally.has_room(0, mutations_found(worker.tracker@, changes@))
        },
        BatchOutcome::Failed => machine.failures() < u32::MAX && tally.submitted < u64::MAX,
    }
}

impl WorkerMachine {
    /// The pause after a failure that was just counted: backoff plus pacing.
    fn pause_after_failure(&self, backoff_ms: u64) -> (pause: u128)
        ensures
            pause == backoff_ms * NANOS_PER_MILLI + pacing_of(self.config),
    {
        assert(backoff_ms * NANOS_PER_MILLI <= 0xffff_ffff_ffff_ffff * NANOS_PER_MILLI)
            by (nonlinear_arith)
            requires
                backoff_ms <= 0xffff_ffff_ffff_ffff,
        ;
        (backoff_ms as u128) * NANOS_PER_MILLI + self.config.pacing_ns()
    }

    /// A permit is held, and the draws gave `roll` and `start`: decides
    /// what to submit.
    pub fn on_admitted_with(
        &mut self,
        worker: &WorkerState,
        stats: &mut BenchStats,
        roll: usize,
        start: usize,
    ) -> (action: Action)
        requires
            old(self).phase() is AwaitPermit,
            worker.wf(),
            old(stats).wf(),
            worker.tracker@.len() == 0 && (old(self).phase()->forced_update || roll >= old(
                self,
            ).config().create_percent) ==> old(self).failures() < u32::MAX && old(
                stats,
            )@.submitted < u64::MAX,
        ensures
            final(stats).wf(),
            final(stats).started() == old(stats).started(),
            final(stats)@ == old(stats)@ || (final(stats)@.one_more_than(old(stats)@)
                && final(self).phase() == Phase::AwaitSignals),
            admitted_as(
                old(self),
                final(self),
                worker,
                old(stats)@,
                final(stats)@,
                action,
                roll as nat,
                start as int,
            ),
    {
        let forced: bool = match self.phase {
            Phase::AwaitPermit { forced_update } => forced_update,
            _ => false,
        };
        let count: usize = self.config.batch();
        if !forced && roll < self.config.create_percent as usize {
            self.phase = Phase::AwaitOutcome { creating: true };
            return Action::Submit { operation: Operation::Create { count } };
        }
        match worker.tracker.select_batch_from(start, count) {
            Ok(batch) => {
                self.phase = Phase::AwaitOutcome { creating: false };
                Action::Submit { operation: Operation::Update { batch } }
            },
            Err(_) => {
                stats.record_failure();
                let backoff_ms: u64 = self.backoff.on_failure();
                self.phase = Phase::AwaitSignals;
                Action::Poll { pause_ns: self.pause_after_failure(backoff_ms) }
            },
        }
    }

    /// A permit is held: draws the kind of batch and, for an update, where
    /// in the tracked set the batch begins, and decides what to submit.
    pub fn on_admitted(&mut self, worker: &WorkerState, stats: &mut BenchStats) -> (action: Action)
        requires
            old(self).phase() is AwaitPermit,
            worker.wf(),
            old(stats).wf(),
            worker.tracker@.len() == 0 && (old(self).phase()->forced_update || old(
                self,
            ).config().create_percent < ROLL_BOUND) ==> old(self).failures() < u32::MAX && old(
                stats,
            )@.submitted < u64::MAX,
        ensures
            final(stats).wf(),
            final(stats).started() == old(stats).started(),
            final(stats)@ == old(stats)@ || (final(stats)@.one_more_than(old(stats)@)
                && final(self).phase() == Phase::AwaitSignals),
            exists|roll: nat, start: int|
                roll < ROLL_BOUND && 0 <= start && (worker.tracker@.len() > 0 ==> start
                    < worker.tracker@.len()) && #[trigger] admitted_as(
                    old(self),
                    final(self),
                    worker,
                    old(stats)@,
                    final(stats)@,
                    action,
                    roll,
                    start,
                ),
    {
        let roll: usize = draw_below(&mut self.generator, ROLL_BOUND);
        let len: usize = worker.tracker.len();
        let start: usize = if len > 0 {
            draw_below(&mut self.generator, len)
        } else {
            0
        };
        let ghost before = *self;
        let action = self.on_admitted_with(worker, stats, roll, start);
        assert(admitted_as(
            old(self),
            self,
            worker,
            old(stats)@,
            stats@,
            action,
            roll as nat,
            start as int,
        )) by {
            assert(before.phase() == old(self).phase());
            assert(before.config() == old(self).config());
            assert(before.policy() == old(self).policy());
            assert(before.failures() == old(self).failures());
        }
        action
    }

    /// Whether `outcome` can be counted: the test to make before `on_completed`.
    pub fn can_complete(&self, worker: &WorkerState, stats: &BenchStats, outcome: &BatchOutcome)
        -> (b: bool)
        ensures
            b == (self.phase() is AwaitOutcome && completable(self, worker, stats@, outcome)),
    {
        if !matches!(self.phase, Phase::AwaitOutcome { .. }) {
            return false;
        }
        match outcome {
            BatchOutcome::Accepted { fee, changes } => {
                let creating: bool = match self.phase {
                    Phase::AwaitOutcome { creating } => creating,
                    _ => false,
                };
                if creating {
                    stats.can_record(count_created(changes) as u64, 0)
                } else {
                    stats.can_record(0, worker.tracker.count_found(changes) as u64)
                }
            },
            BatchOutcome::Failed => self.can_count_failure(stats),
        }
    }

    /// The batch has come back. An accepted batch is counted, its effects
    /// are applied to the tracked set (creates after a create batch,
    /// mutations after an update batch), the fee handle is taken over and
    /// the run of failures ends. A failed batch is counted and lengthens
    /// the run of failures. Either way the worker returns to the loop head
    /// after the pause that backoff and pacing ask for.
    pub fn on_completed(
        &mut self,
        worker: &mut WorkerState,
        stats: &mut BenchStats,
        outcome: &BatchOutcome,
    ) -> (action: Action)
        requires
            old(self).phase() is AwaitOutcome,
            old(worker).wf(),
            old(stats).wf(),
            completable(old(self), old(worker), old(stats)@, outcome),
        ensures
            final(self).same_setup(old(self)),
            final(self).phase() == Phase::AwaitSignals,
            final(worker).wf(),
            final(stats).wf(),
            final(stats).started() == old(stats).started(),
            final(stats)@.one_more_than(old(stats)@),
            final(worker).id == old(worker).id,
            final(worker).identity == old(worker).identity,
            final(worker).tracker.spec_cap() == old(worker).tracker.spec_cap(),
            match *outcome {
                BatchOutcome::Accepted { fee, changes } => {
                    &&& final(worker).fee == fee
                    &&& final(self).failures() == 0
                    &&& action == (Action::Poll { pause_ns: pacing_of(old(self).config()) as u128 })
                    &&& old(self).phase()->creating ==> {
                        &&& final(worker).tracker@ == capped(
                            old(worker).tracker@ + created_in(changes@),
                            old(worker).tracker.spec_cap(),
                        )
                        &&& final(stats)@ == old(stats)@.after_success(
                            created_in(changes@).len(),
                            0,
                        )
                    }
                    &&& !old(self).phase()->creating ==> {
                        &&& final(worker).tracker@ == after_mutations(
                            old(worker).tracker@,
                            changes@,
                        )
                        &&& final(stats)@ == old(stats)@.after_success(
                            0,
                            mutations_found(old(worker).tracker@, changes@),
                        )
                    }
                },
                BatchOutcome::Failed => {
                    &&& final(worker).fee == old(worker).fee
                    &&& final(worker).tracker@ == old(worker).tracker@
                    &&& final(stats)@ == old(stats)@.after_failure()
                    &&& final(self).failures() == old(self).failures() + 1
                    &&& action == (Action::Poll {
                        pause_ns: failure_pause(
                            old(self).policy(),
                            old(self).failures() + 1,
                            old(self).config(),
                        ) as u128,
                    })
                },
            },
    {
        let creating: bool = match self.phase {
            Phase::AwaitOutcome { creating } => creating,
            _ => false,
        };
        self.phase = Phase::AwaitSignals;
        match outcome {
            BatchOutcome::Accepted { fee, changes } => {
                worker.fee = *fee;
                if creating {
                    let created: u64 = worker.tracker.apply_create_results(changes);
                    stats.record_success(created, 0);
                } else {
                    let updated: u64 = worker.tracker.apply_update_results(changes);
                    stats.record_success(0, updated);
                }
                self.backoff.on_success();
                Action::Poll { pause_ns: self.config.pacing_ns() }
            },
            BatchOutcome::Failed => {
                stats.record_failure();
                let backoff_ms: u64 = self.backoff.on_failure();
                Action::Poll { pause_ns: self.pause_after_failure(backoff_ms) }
            },
        }
    }
}

/// While creates are held back, being admitted never leads to a create batch.
pub proof fn lemma_forced_update_never_creates(
    pre: &WorkerMachine,
    post: &WorkerMachine,
    worker: &WorkerState,
    before: Tally,
    after: Tally,
    action: Action,
    roll: nat,
    start: int,
)
    requires
        pre.phase() == (Phase::AwaitPermit { forced_update: true }),
        admitted_as(pre, post, worker, before, after, action, roll, start),
    ensures
        !(action matches Action::Submit { operation } && operation is Create),
        post.phase() != (Phase::AwaitOutcome { creating: true }),
{
}

/// Under emergency pressure the loop head never leads to a phase in
/// which a create batch could be chosen.
pub proof fn lemma_emergency_forces_update(signals: LoopSignals, kept: nat)
    requires
        signals.level == PressureLevel::Emergency,
    ensures
        signals_phase(signals, kept) != (Phase::AwaitPermit { forced_update: false }),
{
}

/// One round of the loop counts at most one batch. Being admitted counts
/// a batch only where it ends the round, a batch that comes back is
/// counted once, and otherwise nothing is counted; so the counters at the
/// end of the round are those at its head or exactly one batch more, no
/// counter has fallen, and counters that covered or balanced their
/// outcomes still do.
pub proof fn lemma_round_counts_at_most_once(
    at_head: Tally,
    admitted: Tally,
    after_admission: Phase,
    at_end: Tally,
)
    requires
        admitted == at_head || (admitted.one_more_than(at_head) && after_admission
            == Phase::AwaitSignals),
        after_admission is AwaitOutcome ==> at_end.one_more_than(admitted),
        !(after_admission is AwaitOutcome) ==> at_end == admitted,
    ensures
        at_end == at_head || at_end.one_more_than(at_head),
        at_end.never_below(at_head),
        at_head.consistent() ==> at_end.consistent(),
        at_head.balanced() ==> at_end.balanced(),
{
}

} // verus!
