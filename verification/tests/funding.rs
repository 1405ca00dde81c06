use fdp_sui_bench::funding::{
    richest, Coin, Funding, FundingAction, FundingError, FundingPhase,
};
use fdp_sui_bench::resource::{Fingerprint, Handle, TrackedResource};

fn coin(n: u128, balance: u64) -> Coin {
    Coin {
        resource: TrackedResource::new(Handle { hi: 0, lo: n }, 3, Fingerprint { hi: 0, lo: n }),
        balance,
    }
}

#[test]
fn funding_asks_the_faucet_at_once() {
    let funding = Funding::new();
    assert_eq!(funding.current_phase(), FundingPhase::Requesting { attempt: 1 });
    assert_eq!(funding.first_action(), FundingAction::RequestFaucet { pause_ms: 0 });
}

#[test]
fn an_accepted_request_leads_to_the_ledger_after_two_seconds() {
    let mut funding = Funding::new();
    assert_eq!(funding.on_faucet(true), FundingAction::QueryCoins { pause_ms: 2000 });
    assert_eq!(funding.current_phase(), FundingPhase::Polling { attempt: 1 });
}

#[test]
fn a_refused_request_is_repeated_twice_with_half_a_second_between() {
    let mut funding = Funding::new();
    assert_eq!(funding.on_faucet(false), FundingAction::RequestFaucet { pause_ms: 500 });
    assert_eq!(funding.current_phase(), FundingPhase::Requesting { attempt: 2 });
    assert_eq!(funding.on_faucet(false), FundingAction::RequestFaucet { pause_ms: 500 });
    assert_eq!(funding.current_phase(), FundingPhase::Requesting { attempt: 3 });
    assert_eq!(funding.on_faucet(false), FundingAction::QueryCoins { pause_ms: 2000 });
    assert_eq!(funding.current_phase(), FundingPhase::Polling { attempt: 1 });
}

#[test]
fn the_richest_coin_becomes_the_fee_handle() {
    let mut funding = Funding::new();
    funding.on_faucet(true);
    let coins = vec![coin(1, 5), coin(2, 9), coin(3, 7)];
    assert_eq!(
        funding.on_coins(Some(&coins)),
        FundingAction::Done { fee: coin(2, 0).resource }
    );
    assert_eq!(funding.current_phase(), FundingPhase::Funded);
}

#[test]
fn richest_takes_the_last_of_equally_rich_coins() {
    assert_eq!(richest(&vec![]), None);
    assert_eq!(richest(&vec![coin(1, 0)]), Some(0));
    assert_eq!(richest(&vec![coin(1, 9), coin(2, 9), coin(3, 1)]), Some(1));
    assert_eq!(richest(&vec![coin(1, 9), coin(2, 3), coin(3, 9)]), Some(2));
    let coins = vec![coin(1, 4), coin(2, 8), coin(3, 8), coin(4, 2)];
    let by_std = coins.iter().enumerate().max_by_key(|(_, c)| c.balance).map(|(i, _)| i);
    assert_eq!(richest(&coins), by_std);
}

#[test]
fn empty_looks_double_the_pause_and_end_in_no_funds_available() {
    let mut funding = Funding::new();
    funding.on_faucet(true);
    let none: Vec<Coin> = vec![];
    assert_eq!(funding.on_coins(Some(&none)), FundingAction::QueryCoins { pause_ms: 1000 });
    assert_eq!(funding.on_coins(Some(&none)), FundingAction::QueryCoins { pause_ms: 2000 });
    assert_eq!(funding.on_coins(Some(&none)), FundingAction::QueryCoins { pause_ms: 4000 });
    assert_eq!(funding.on_coins(Some(&none)), FundingAction::QueryCoins { pause_ms: 8000 });
    assert_eq!(funding.current_phase(), FundingPhase::Polling { attempt: 5 });
    assert_eq!(
        funding.on_coins(Some(&none)),
        FundingAction::Fail { error: FundingError::NoFundsAvailable }
    );
    assert_eq!(funding.current_phase(), FundingPhase::Failed);
}

#[test]
fn a_coin_found_at_a_later_look_still_funds() {
    let mut funding = Funding::new();
    funding.on_faucet(false);
    funding.on_faucet(false);
    funding.on_faucet(false);
    let none: Vec<Coin> = vec![];
    funding.on_coins(Some(&none));
    funding.on_coins(Some(&none));
    assert_eq!(
        funding.on_coins(Some(&vec![coin(4, 1)])),
        FundingAction::Done { fee: coin(4, 1).resource }
    );
}

#[test]
fn a_ledger_that_cannot_be_asked_fails_the_funding() {
    let mut funding = Funding::new();
    funding.on_faucet(true);
    assert_eq!(
        funding.on_coins(None),
        FundingAction::Fail { error: FundingError::QueryFailed }
    );
    assert_eq!(funding.current_phase(), FundingPhase::Failed);
}
