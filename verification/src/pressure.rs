//! Host memory pressure: from a memory sample to a discrete level, and
//! from a level to the three levers it may pull. No level ever stops a
//! worker; it only sheds tracked state, slows down, and holds back creates.

use vstd::prelude::*;

verus! {

/// Usage is measured in parts per million of total memory.
pub const FULL_SCALE: u32 = 1_000_000;

/// Time between two memory samples, in milliseconds.
pub const SAMPLE_PERIOD_MS: u64 = 500;

/// While pressure stays elevated, a notice is repeated once this many
/// milliseconds have passed since the last one.
pub const RENOTIFY_AFTER_MS: u64 = 30_000;

#[derive(Clone, Copy, Debug, PartialEq, Eq, Structural)]
pub enum PressureLevel {
    Normal,
    Light,
    Heavy,
    Emergency,
}

/// What a worker does about a pressure level before its next operation.
#[derive(Clone, Copy, Debug, PartialEq, Eq, Structural)]
pub struct Throttle {
    /// Share of the tracked set to drop, in percent.
    pub evict_percent: u8,
    /// Pause before the next operation, in milliseconds.
    pub delay_ms: u64,
    /// Whether only updates may be issued.
    pub suppress_creates: bool,
}

/// Total and available memory of the host, in the unit the host reports.
#[derive(Clone, Copy, Debug, PartialEq, Eq)]
pub struct MemorySample {
    /// Total memory; zero where it could not be read.
    pub total: u64,
    /// Available memory; `None` where it could not be read.
    pub available: Option<u64>,
}

/// The usage at which each elevated level begins, in parts per million.
#[derive(Clone, Copy, Debug, PartialEq, Eq, Structural)]
pub struct PressureThresholds {
    pub light: u32,
    pub critical: u32,
    pub emergency: u32,
}

/// What the monitor has to tell the operator after a sample.
#[derive(Clone, Copy, Debug, PartialEq, Eq, Structural)]
pub enum PressureNotice {
    Emergency,
    Heavy,
    Light,
    Recovered,
}

/// The outcome of one sample: the level to publish and, if any, the notice.
#[derive(Clone, Copy, Debug, PartialEq, Eq, Structural)]
pub struct Observation {
    pub level: PressureLevel,
    pub notice: Option<PressureNotice>,
}

#[derive(Clone, Copy, Debug)]
pub struct PressureMonitor {
    thresholds: PressureThresholds,
    last_level: PressureLevel,
}

/// The used share of memory in parts per million, rounded down. A sample
/// without a total or without an available figure shows no usage: what
/// could not be read never raises the pressure.
pub open spec fn usage_of(sample: MemorySample) -> nat {
    match sample.available {
        Some(available) => if sample.total == 0 || available >= sample.total {
            0
        } else {
            ((sample.total - available) * FULL_SCALE / (sample.total as int)) as nat
        },
        None => 0,
    }
}

/// The level that a usage falls into: the highest whose threshold it reaches.
pub open spec fn level_for(usage: nat, thresholds: PressureThresholds) -> PressureLevel {
    if usage >= thresholds.emergency {
        PressureLevel::Emergency
    } else if usage >= thresholds.critical {
        PressureLevel::Heavy
    } else if usage >= thresholds.light {
        PressureLevel::Light
    } else {
        PressureLevel::Normal
    }
}

/// The notice for a sample that gave `level` after `last`, when the last
/// notice is `since_notice_ms` old.
pub open spec fn notice_for(last: PressureLevel, level: PressureLevel, since_notice_ms: nat)
    -> Option<PressureNotice> {
    if level != last || (level != PressureLevel::Normal && since_notice_ms > RENOTIFY_AFTER_MS) {
        Some(
            match level {
                PressureLevel::Emergency => PressureNotice::Emergency,
                PressureLevel::Heavy => PressureNotice::Heavy,
                PressureLevel::Light => PressureNotice::Light,
                PressureLevel::Normal => PressureNotice::Recovered,
            },
        )
    } else {
        None
    }
}

impl PressureLevel {
    /// The position of the level in the order Normal, Light, Heavy, Emergency.
    pub open spec fn rank(self) -> nat {
        match self {
            PressureLevel::Normal => 0,
            PressureLevel::Light => 1,
            PressureLevel::Heavy => 2,
            PressureLevel::Emergency => 3,
        }
    }

    /// The levers of the level.
    pub open spec fn spec_throttle(self) -> Throttle {
        match self {
            PressureLevel::Normal => Throttle {
                evict_percent: 0,
                delay_ms: 0,
                suppress_creates: false,
            },
            PressureLevel::Light => Throttle {
                evict_percent: 25,
                delay_ms: 250,
                suppress_creates: false,
            },
            PressureLevel::Heavy => Throttle {
                evict_percent: 50,
                delay_ms: 1000,
                suppress_creates: false,
            },
            PressureLevel::Emergency => Throttle {
                evict_percent: 75,
                delay_ms: 2000,
                suppress_creates: true,
            },
        }
    }

    /// The level as the small number under which it is published.
    pub fn code(self) -> (c: u8)
        ensures
            c == self.rank(),
    {
        match self {
            PressureLevel::Normal => 0,
            PressureLevel::Light => 1,
            PressureLevel::Heavy => 2,
            PressureLevel::Emergency => 3,
        }
    }

    /// The level published under `code`; a number that stands for no
    /// level pulls no lever and reads as `Normal`.
    pub fn from_code(code: u8) -> (level: Self)
        ensures
            code <= 3 ==> level.rank() == code,
            code > 3 ==> level == PressureLevel::Normal,
    {
        if code == 1 {
            PressureLevel::Light
        } else if code == 2 {
            PressureLevel::Heavy
        } else if code == 3 {
            PressureLevel::Emergency
        } else {
            PressureLevel::Normal
        }
    }

    pub fn is_elevated(self) -> (b: bool)
        ensures
            b == (self != PressureLevel::Normal),
    {
        match self {
            PressureLevel::Normal => false,
            _ => true,
        }
    }

    pub fn throttle(self) -> (t: Throttle)
        ensures
            t == self.spec_throttle(),
            t.evict_percent <= 100,
    {
        match self {
            PressureLevel::Normal => Throttle {
                evict_percent: 0,
                delay_ms: 0,
                suppress_creates: false,
            },
            PressureLevel::Light => Throttle {
                evict_percent: 25,
                delay_ms: 250,
                suppress_creates: false,
            },
            PressureLevel::Heavy => Throttle {
                evict_percent: 50,
                delay_ms: 1000,
                suppress_creates: false,
            },
            PressureLevel::Emergency => Throttle {
                evict_percent: 75,
                delay_ms: 2000,
                suppress_creates: true,
            },
        }
    }
}

impl MemorySample {
    /// The sample that stands for a host whose memory could not be read:
    /// it shows no usage.
    pub fn unreadable() -> (s: Self)
        ensures
            s == (MemorySample { total: 0, available: None }),
            usage_of(s) == 0,
    {
        MemorySample { total: 0, available: None }
    }

    /// The used share of memory in parts per million.
    pub fn usage(&self) -> (u: u32)
        ensures
            u == usage_of(*self),
            u <= FULL_SCALE,
    {
        let available: u64 = match self.available {
            Some(available) => available,
            None => {
                return 0;
            },
        };
        if self.total == 0 || available >= self.total {
            return 0;
        }
        let used: u64 = self.total - available;
        assert(used * FULL_SCALE <= self.total * FULL_SCALE) by (nonlinear_arith)
            requires
                used <= self.total,
        ;
        assert(self.total * FULL_SCALE <= 0xffff_ffff_ffff_ffff * 0x1_0000_0000) by (nonlinear_arith)
            requires
                self.total <= 0xffff_ffff_ffff_ffff,
                FULL_SCALE <= 0x1_0000_0000,
        ;
        let scaled: u128 = (used as u128) * (FULL_SCALE as u128);
        let share: u128 = scaled / (self.total as u128);
        assert(share <= FULL_SCALE) by (nonlinear_arith)
            requires
                share == scaled / (self.total as u128),
                scaled <= self.total * FULL_SCALE,
                self.total > 0,
        ;
        share as u32
    }
}

impl PressureThresholds {
    /// Light from 75 %, heavy from 85 %, emergency from 92 % of memory in use.
    pub fn standard() -> (t: Self)
        ensures
            t == (PressureThresholds { light: 750_000, critical: 850_000, emergency: 920_000 }),
            t.ascending(),
    {
        PressureThresholds { light: 750_000, critical: 850_000, emergency: 920_000 }
    }

    /// The thresholds rise from light to emergency and stay within the scale.
    pub open spec fn ascending(self) -> bool {
        self.light <= self.critical <= self.emergency <= FULL_SCALE
    }

    pub fn is_ascending(&self) -> (b: bool)
        ensures
            b == self.ascending(),
    {
        self.light <= self.critical && self.critical <= self.emergency && self.emergency
            <= FULL_SCALE
    }

    /// The level of a usage given in parts per million.
    pub fn classify(&self, usage: u32) -> (level: PressureLevel)
        ensures
            level == level_for(usage as nat, *self),
    {
        if usage >= self.emergency {
            PressureLevel::Emergency
        } else if usage >= self.critical {
            PressureLevel::Heavy
        } else if usage >= self.light {
            PressureLevel::Light
        } else {
            PressureLevel::Normal
        }
    }
}

impl PressureMonitor {
    pub closed spec fn thresholds(&self) -> PressureThresholds {
        self.thresholds
    }

    /// The level of the sample seen last; `Normal` before the first.
    pub closed spec fn last_level(&self) -> PressureLevel {
        self.last_level
    }

    pub fn new(thresholds: PressureThresholds) -> (m: Self)
        ensures
            m.thresholds() == thresholds,
            m.last_level() == PressureLevel::Normal,
    {
        PressureMonitor { thresholds, last_level: PressureLevel::Normal }
    }

    pub fn current_level(&self) -> (level: PressureLevel)
        ensures
            level == self.last_level(),
    {
        self.last_level
    }

    /// Takes one memory sample: the level it falls into, and a notice
    /// when the level changed or stayed elevated for longer than
    /// `RENOTIFY_AFTER_MS` since the last notice.
    pub fn observe(&mut self, sample: MemorySample, since_notice_ms: u64) -> (seen: Observation)
        ensures
            final(self).thresholds() == old(self).thresholds(),
            seen.level == level_for(usage_of(sample), old(self).thresholds()),
            seen.notice == notice_for(old(self).last_level(), seen.level, since_notice_ms as nat),
            final(self).last_level() == seen.level,
    {
        let usage: u32 = sample.usage();
        let level: PressureLevel = self.thresholds.classify(usage);
        let notice: Option<PressureNotice> = if level != self.last_level || (level.is_elevated()
            && since_notice_ms > RENOTIFY_AFTER_MS) {
            Some(
                match level {
                    PressureLevel::Emergency => PressureNotice::Emergency,
                    PressureLevel::Heavy => PressureNotice::Heavy,
                    PressureLevel::Light => PressureNotice::Light,
                    PressureLevel::Normal => PressureNotice::Recovered,
                },
            )
        } else {
            None
        };
        self.last_level = level;
        Observation { level, notice }
    }
}

/// A sample whose total or whose available figure could not be read
/// shows no usage, and so falls into the level of no usage at all.
pub proof fn lemma_unread_shows_no_usage(sample: MemorySample, thresholds: PressureThresholds)
    requires
        sample.total == 0 || sample.available is None,
    ensures
        usage_of(sample) == 0,
        level_for(usage_of(sample), thresholds) == level_for(0, thresholds),
        thresholds.light > 0 && thresholds.critical > 0 && thresholds.emergency > 0 ==> level_for(
            usage_of(sample),
            thresholds,
        ) == PressureLevel::Normal,
{
}

/// More memory in use never gives a lower level.
pub proof fn lemma_level_monotone(low: nat, high: nat, thresholds: PressureThresholds)
    requires
        low <= high,
    ensures
        level_for(low, thresholds).rank() <= level_for(high, thresholds).rank(),
{
}

/// Under ascending thresholds each level is exactly a band of usage.
pub proof fn lemma_level_bands(usage: nat, thresholds: PressureThresholds)
    requires
        thresholds.ascending(),
    ensures
        level_for(usage, thresholds) == PressureLevel::Normal <==> usage < thresholds.light,
        level_for(usage, thresholds) == PressureLevel::Light <==> thresholds.light <= usage
            < thresholds.critical,
        level_for(usage, thresholds) == PressureLevel::Heavy <==> thresholds.critical <= usage
            < thresholds.emergency,
        level_for(usage, thresholds) == PressureLevel::Emergency <==> thresholds.emergency
            <= usage,
{
}

/// Only the emergency level holds back creates, and the normal level pulls no lever.
pub proof fn lemma_throttle_levers(level: PressureLevel)
    ensures
        level.spec_throttle().suppress_creates <==> level == PressureLevel::Emergency,
        level == PressureLevel::Normal ==> level.spec_throttle() == (Throttle {
            evict_percent: 0,
            delay_ms: 0,
            suppress_creates: false,
        }),
        level.spec_throttle().evict_percent <= 75,
        level.spec_throttle().delay_ms <= 2000,
{
}

} // verus!
