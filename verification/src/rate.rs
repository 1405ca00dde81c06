//! The adaptive rate controller: an extra pause that depends on the share
//! of submissions, over all workers, that failed.

use vstd::prelude::*;

verus! {

/// The failure share is trusted only once more submissions than this were made.
pub const MIN_SAMPLE: u64 = 100;

/// Pause while more than 30 % of the submissions failed, in milliseconds.
pub const CRITICAL_PAUSE_MS: u64 = 5000;

/// Pause while more than 10 % of the submissions failed, in milliseconds.
pub const ELEVATED_PAUSE_MS: u64 = 200;

#[derive(Clone, Copy, Debug, PartialEq, Eq, Structural)]
pub enum FailureBand {
    /// At most 10 % failed, or the sample is too small to tell.
    Calm,
    /// More than 10 % and at most 30 % failed.
    Elevated,
    /// More than 30 % failed.
    Critical,
}

/// The band of `failed` failures among `submitted` submissions.
pub open spec fn band_of(submitted: nat, failed: nat) -> FailureBand {
    if submitted <= MIN_SAMPLE {
        FailureBand::Calm
    } else if failed * 10 > submitted * 3 {
        FailureBand::Critical
    } else if failed * 10 > submitted {
        FailureBand::Elevated
    } else {
        FailureBand::Calm
    }
}

/// The pause that a band imposes, in milliseconds.
pub open spec fn pause_of(band: FailureBand) -> nat {
    match band {
        FailureBand::Calm => 0,
        FailureBand::Elevated => ELEVATED_PAUSE_MS as nat,
        FailureBand::Critical => CRITICAL_PAUSE_MS as nat,
    }
}

pub fn failure_band(submitted: u64, failed: u64) -> (band: FailureBand)
    ensures
        band == band_of(submitted as nat, failed as nat),
{
    if submitted <= MIN_SAMPLE {
        return FailureBand::Calm;
    }
    let scaled_failed: u128 = (failed as u128) * 10;
    if scaled_failed > (submitted as u128) * 3 {
        FailureBand::Critical
    } else if scaled_failed > submitted as u128 {
        FailureBand::Elevated
    } else {
        FailureBand::Calm
    }
}

/// The pause before the next operation, in milliseconds.
pub fn adaptive_delay_ms(submitted: u64, failed: u64) -> (pause: u64)
    ensures
        pause == pause_of(band_of(submitted as nat, failed as nat)),
{
    match failure_band(submitted, failed) {
        FailureBand::Calm => 0,
        FailureBand::Elevated => ELEVATED_PAUSE_MS,
        FailureBand::Critical => CRITICAL_PAUSE_MS,
    }
}

/// With the same number of submissions, more failures never shorten the pause.
pub proof fn lemma_pause_monotone(submitted: nat, fewer: nat, more: nat)
    requires
        fewer <= more,
    ensures
        pause_of(band_of(submitted, fewer)) <= pause_of(band_of(submitted, more)),
{
}

} // verus!
