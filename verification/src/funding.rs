//! Obtaining a fee handle for a fresh identity: a few requests to the
//! faucet, then a few looks at the ledger with growing pauses. The machine
//! decides; its driver sleeps, asks, and reports back.

use vstd::arithmetic::power2::{lemma2_to64, pow2};
use vstd::prelude::*;
use crate::resource::TrackedResource;

verus! {

/// The faucet is asked at most this many times.
pub const FAUCET_ATTEMPTS: u8 = 3;

/// Pause between two requests to the faucet, in milliseconds.
pub const FAUCET_SPACING_MS: u64 = 500;

/// Pause between the last request to the faucet and the first look at
/// the ledger, in milliseconds.
pub const SETTLE_MS: u64 = 2000;

/// The ledger is looked at at most this many times.
pub const POLL_ATTEMPTS: u8 = 5;

/// The pause after the first empty look is twice this, in milliseconds,
/// and doubles with every further look.
pub const POLL_BASE_MS: u64 = 500;

/// A spendable resource with its balance.
#[derive(Clone, Copy, Debug, PartialEq, Eq, Structural)]
pub struct Coin {
    pub resource: TrackedResource,
    pub balance: u64,
}

#[derive(Clone, Copy, Debug, PartialEq, Eq, Structural)]
pub enum FundingError {
    /// Every look at the ledger found nothing to spend.
    NoFundsAvailable,
    /// The ledger could not be asked.
    QueryFailed,
}

#[derive(Clone, Copy, Debug, PartialEq, Eq, Structural)]
pub enum FundingPhase {
    /// The `attempt`-th request to the faucet is due or under way.
    Requesting { attempt: u8 },
    /// The `attempt`-th look at the ledger is due or under way.
    Polling { attempt: u8 },
    Funded,
    Failed,
}

/// What the driver has to do next.
#[derive(Clone, Copy, Debug, PartialEq, Eq, Structural)]
pub enum FundingAction {
    /// Sleep `pause_ms`, ask the faucet, and call `on_faucet`.
    RequestFaucet { pause_ms: u64 },
    /// Sleep `pause_ms`, list what the identity can spend, and call `on_coins`.
    QueryCoins { pause_ms: u64 },
    /// The identity pays with `fee` from now on.
    Done { fee: TrackedResource },
    Fail { error: FundingError },
}

#[derive(Clone, Copy, Debug)]
pub struct Funding {
    phase: FundingPhase,
}

/// `at` is the position of the richest coin; among equally rich ones, of the last.
pub open spec fn is_richest(coins: Seq<Coin>, at: int) -> bool {
    &&& 0 <= at < coins.len()
    &&& forall|j: int| 0 <= j < coins.len() ==> (#[trigger] coins[j]).balance <= coins[at].balance
    &&& forall|j: int| at < j < coins.len() ==> (#[trigger] coins[j]).balance < coins[at].balance
}

/// The pause after the `attempt`-th empty look at the ledger, in
/// milliseconds: `POLL_BASE_MS` times two to the power of `attempt`.
pub open spec fn poll_pause(attempt: nat) -> nat {
    POLL_BASE_MS as nat * pow2(attempt)
}

/// The richest coin, and among equally rich ones the last.
pub fn richest(coins: &Vec<Coin>) -> (at: Option<usize>)
    ensures
        coins@.len() == 0 <==> at is None,
        at matches Some(i) ==> is_richest(coins@, i as int),
{
    if coins.len() == 0 {
        return None;
    }
    let mut best: usize = 0;
    let mut i: usize = 1;
    while i < coins.len()
        invariant
            1 <= i <= coins@.len(),
            best < i,
            forall|j: int| 0 <= j < i ==> (#[trigger] coins@[j]).balance <= coins@[best as int].balance,
            forall|j: int| best < j < i ==> (#[trigger] coins@[j]).balance < coins@[best as int].balance,
        decreases coins@.len() - i,
    {
        if coins[i].balance >= coins[best].balance {
            best = i;
        }
        i = i + 1;
    }
    Some(best)
}

impl Funding {
    pub closed spec fn phase(&self) -> FundingPhase {
        self.phase
    }

    /// The attempt numbers stay within their limits.
    pub open spec fn wf(&self) -> bool {
        match self.phase() {
            FundingPhase::Requesting { attempt } => 1 <= attempt <= FAUCET_ATTEMPTS,
            FundingPhase::Polling { attempt } => 1 <= attempt <= POLL_ATTEMPTS,
            _ => true,
        }
    }

    /// A funding that is about to ask the faucet for the first time.
    pub fn new() -> (f: Self)
        ensures
            f.wf(),
            f.phase() == (FundingPhase::Requesting { attempt: 1 }),
    {
        Funding { phase: FundingPhase::Requesting { attempt: 1 } }
    }

    /// What to do first: ask the faucet at once.
    pub fn first_action(&self) -> (action: FundingAction)
        ensures
            action == (FundingAction::RequestFaucet { pause_ms: 0 }),
    {
        FundingAction::RequestFaucet { pause_ms: 0 }
    }

    pub fn current_phase(&self) -> (p: FundingPhase)
        ensures
            p == self.phase(),
    {
        self.phase
    }

    /// The faucet has answered. Once it accepted, or refused for the
    /// last time, the ledger is looked at after `SETTLE_MS`; before that
    /// the faucet is asked again after `FAUCET_SPACING_MS`.
    pub fn on_faucet(&mut self, accepted: bool) -> (action: FundingAction)
        requires
            old(self).wf(),
            old(self).phase() is Requesting,
        ensures
            final(self).wf(),
            accepted || old(self).phase()->Requesting_attempt == FAUCET_ATTEMPTS ==> {
                &&& final(self).phase() == (FundingPhase::Polling { attempt: 1 })
                &&& action == (FundingAction::QueryCoins { pause_ms: SETTLE_MS })
            },
            !accepted && old(self).phase()->Requesting_attempt < FAUCET_ATTEMPTS ==> {
                &&& final(self).phase() == (FundingPhase::Requesting {
                    attempt: (old(self).phase()->Requesting_attempt + 1) as u8,
                })
                &&& action == (FundingAction::RequestFaucet { pause_ms: FAUCET_SPACING_MS })
            },
    {
        let attempt: u8 = match self.phase {
            FundingPhase::Requesting { attempt } => attempt,
            _ => FAUCET_ATTEMPTS,
        };
        if accepted || attempt >= FAUCET_ATTEMPTS {
            self.phase = FundingPhase::Polling { attempt: 1 };
            FundingAction::QueryCoins { pause_ms: SETTLE_MS }
        } else {
            self.phase = FundingPhase::Requesting { attempt: attempt + 1 };
            FundingAction::RequestFaucet { pause_ms: FAUCET_SPACING_MS }
        }
    }

    /// The ledger has answered with `coins`, or could not be asked
    /// (`None`). The richest coin becomes the fee handle. An empty answer
    /// leads to another look after a pause that doubles each time, and
    /// after the last look to `NoFundsAvailable`.
    pub fn on_coins(&mut self, coins: Option<&Vec<Coin>>) -> (action: FundingAction)
        requires
            old(self).wf(),
            old(self).phase() is Polling,
        ensures
            final(self).wf(),
            coins is None ==> {
                &&& final(self).phase() == FundingPhase::Failed
                &&& action == (FundingAction::Fail { error: FundingError::QueryFailed })
            },
            coins matches Some(found) ==> {
                &&& found@.len() > 0 ==> {
                    &&& final(self).phase() == FundingPhase::Funded
                    &&& action matches FundingAction::Done { fee }
                    &&& exists|at: int|
                        is_richest(found@, at) && fee == (#[trigger] found@[at]).resource
                }
                &&& found@.len() == 0 && old(self).phase()->Polling_attempt < POLL_ATTEMPTS ==> {
                    &&& final(self).phase() == (FundingPhase::Polling {
                        attempt: (old(self).phase()->Polling_attempt + 1) as u8,
                    })
                    &&& action == (FundingAction::QueryCoins {
                        pause_ms: poll_pause(old(self).phase()->Polling_attempt as nat) as u64,
                    })
                }
                &&& found@.len() == 0 && old(self).phase()->Polling_attempt == POLL_ATTEMPTS ==> {
                    &&& final(self).phase() == FundingPhase::Failed
                    &&& action == (FundingAction::Fail { error: FundingError::NoFundsAvailable })
                }
            },
    {
        let attempt: u8 = match self.phase {
            FundingPhase::Polling { attempt } => attempt,
            _ => POLL_ATTEMPTS,
        };
        proof {
            lemma2_to64();
        }
        match coins {
            None => {
                self.phase = FundingPhase::Failed;
                FundingAction::Fail { error: FundingError::QueryFailed }
            },
            Some(found) => {
                match richest(found) {
                    Some(at) => {
                        self.phase = FundingPhase::Funded;
                        FundingAction::Done { fee: found[at].resource }
                    },
                    None => {
                        if attempt >= POLL_ATTEMPTS {
                            self.phase = FundingPhase::Failed;
                            FundingAction::Fail { error: FundingError::NoFundsAvailable }
                        } else {
                            let pause_ms: u64 = if attempt == 1 {
                                2 * POLL_BASE_MS
                            } else if attempt == 2 {
                                4 * POLL_BASE_MS
                            } else if attempt == 3 {
                                8 * POLL_BASE_MS
                            } else {
                                16 * POLL_BASE_MS
                            };
                            self.phase = FundingPhase::Polling { attempt: attempt + 1 };
                            FundingAction::QueryCoins { pause_ms }
                        }
                    },
                }
            },
        }
    }
}

/// There is at most one richest position.
pub proof fn lemma_richest_unique(coins: Seq<Coin>, a: int, b: int)
    requires
        is_richest(coins, a),
        is_richest(coins, b),
    ensures
        a == b,
{
    if a < b {
        assert(coins[b].balance < coins[a].balance);
        assert(coins[a].balance <= coins[b].balance);
    } else if b < a {
        assert(coins[a].balance < coins[b].balance);
        assert(coins[b].balance <= coins[a].balance);
    }
}

} // verus!
