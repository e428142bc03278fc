//! End-to-end tests of the bet lifecycle: registration, early resolution,
//! settlement, and the error taxonomy.

use casino::Casino;
use casino::Error;
use casino::Oracle;
use casino::SettlementLedger;

/// An oracle that has reached round `latest`, publishing `value` for every
/// round up to it.
fn oracle_at_round(latest: u64, value: Vec<u8>) -> Oracle {
    let mut o = Oracle::new(value.clone());
    for _ in 0..latest {
        o.advance_round(value.clone());
    }
    o
}

#[test]
fn registration_assigns_distinct_ids_and_owners() {
    let mut casino = Casino::new(10, 50);
    let mut ledger = SettlementLedger::new();
    assert_eq!(ledger.credit(1, 100), Ok(()));
    assert_eq!(ledger.credit(2, 100), Ok(()));
    let oracle = oracle_at_round(5, vec![1]);

    let first = casino.register_bet(&mut ledger, &oracle, 1).unwrap();
    let second = casino.register_bet(&mut ledger, &oracle, 2).unwrap();

    assert_ne!(first, second);
    assert_eq!(casino.bet_count(), 2);
    assert_eq!(casino.bet_details(first), Some((7, 1)));
    assert_eq!(casino.bet_details(second), Some((7, 2)));
    assert_eq!(ledger.balance_of(1), 90);
    assert_eq!(ledger.balance_of(2), 90);
}

#[test]
fn register_with_failed_fee_creates_no_entry() {
    let mut casino = Casino::new(10, 50);
    let mut ledger = SettlementLedger::new();
    assert_eq!(ledger.credit(1, 5), Ok(()));
    let oracle = oracle_at_round(5, vec![1]);

    let r = casino.register_bet(&mut ledger, &oracle, 1);

    assert_eq!(r, Err(Error::FailedTransfer));
    assert_eq!(casino.bet_count(), 0);
    assert_eq!(ledger.balance_of(1), 5);
}

#[test]
fn resolve_before_target_round_is_retryable() {
    let mut casino = Casino::new(10, 50);
    let mut ledger = SettlementLedger::new();
    assert_eq!(ledger.credit(1, 100), Ok(()));
    let mut oracle = oracle_at_round(5, vec![1]);

    let id = casino.register_bet(&mut ledger, &oracle, 1).unwrap();
    assert_eq!(casino.bet_details(id), Some((7, 1)));

    // Still at round 5: the target round's randomness is unpublished.
    assert_eq!(
        casino.resolve_bet(&mut ledger, &oracle, id),
        Err(Error::BetResolutionTooEarly)
    );
    // The rejection changed nothing, so the retry gets the same answer.
    assert_eq!(
        casino.resolve_bet(&mut ledger, &oracle, id),
        Err(Error::BetResolutionTooEarly)
    );

    // One round short of the target: still too early.
    oracle.advance_round(vec![1]);
    assert_eq!(
        casino.resolve_bet(&mut ledger, &oracle, id),
        Err(Error::BetResolutionTooEarly)
    );

    assert!(casino.has_bet(id));
    assert_eq!(ledger.balance_of(1), 90);
}

#[test]
fn winning_bet_pays_once_and_only_once() {
    let mut casino = Casino::new(10, 50);
    let mut ledger = SettlementLedger::new();
    assert_eq!(ledger.credit(1, 100), Ok(()));
    let mut oracle = oracle_at_round(5, vec![1]);

    let id = casino.register_bet(&mut ledger, &oracle, 1).unwrap();
    assert_eq!(ledger.balance_of(1), 90);

    oracle.advance_round(vec![1]);
    assert_eq!(
        casino.resolve_bet(&mut ledger, &oracle, id),
        Err(Error::BetResolutionTooEarly)
    );

    // Round 7 is reached with a winning randomness value.
    oracle.advance_round(vec![0xFF]);
    assert_eq!(casino.resolve_bet(&mut ledger, &oracle, id), Ok(()));
    assert_eq!(ledger.balance_of(1), 140);
    assert!(!casino.has_bet(id));
    assert_eq!(casino.bet_count(), 0);

    // The record is gone: a second claim finds nothing and pays nothing.
    assert_eq!(
        casino.resolve_bet(&mut ledger, &oracle, id),
        Err(Error::BetNotFound)
    );
    assert_eq!(ledger.balance_of(1), 140);
}

#[test]
fn losing_bet_is_removed_without_payout() {
    let mut casino = Casino::new(10, 50);
    let mut ledger = SettlementLedger::new();
    assert_eq!(ledger.credit(1, 100), Ok(()));
    let mut oracle = oracle_at_round(5, vec![1]);

    let id = casino.register_bet(&mut ledger, &oracle, 1).unwrap();
    oracle.advance_round(vec![1]);
    oracle.advance_round(vec![0x00]);

    assert_eq!(casino.resolve_bet(&mut ledger, &oracle, id), Ok(()));
    assert_eq!(ledger.balance_of(1), 90);
    assert!(!casino.has_bet(id));
}

#[test]
fn failed_payout_keeps_the_claim_alive() {
    let mut casino = Casino::new(10, 50);
    let mut ledger = SettlementLedger::new();
    assert_eq!(ledger.credit(1, u128::MAX), Ok(()));
    let mut oracle = oracle_at_round(5, vec![1]);

    let id = casino.register_bet(&mut ledger, &oracle, 1).unwrap();
    assert_eq!(ledger.balance_of(1), u128::MAX - 10);

    oracle.advance_round(vec![1]);
    oracle.advance_round(vec![0xFF]);

    // The reward cannot be credited: the record must survive, unpaid.
    assert_eq!(
        casino.resolve_bet(&mut ledger, &oracle, id),
        Err(Error::FailedTransfer)
    );
    assert!(casino.has_bet(id));
    assert_eq!(ledger.balance_of(1), u128::MAX - 10);

    // Once the owner's balance leaves room for the reward, the claim goes through.
    assert_eq!(ledger.debit(1, 100), Ok(()));
    assert_eq!(casino.resolve_bet(&mut ledger, &oracle, id), Ok(()));
    assert_eq!(ledger.balance_of(1), u128::MAX - 110 + 50);
    assert!(!casino.has_bet(id));
}

#[test]
fn resolve_unknown_id_is_a_typed_error() {
    let mut casino = Casino::new(10, 50);
    let mut ledger = SettlementLedger::new();
    let oracle = oracle_at_round(5, vec![1]);

    assert_eq!(
        casino.resolve_bet(&mut ledger, &oracle, 42),
        Err(Error::BetNotFound)
    );
}

#[test]
fn error_variants_are_distinguishable() {
    assert_eq!(Error::Custom(vec![1, 2]), Error::Custom(vec![1, 2]));
    assert_ne!(Error::Custom(vec![1, 2]), Error::Custom(vec![3]));
    assert_ne!(Error::FailedTransfer, Error::BetNotFound);
    assert_ne!(Error::BetResolutionTooEarly, Error::BetNotFound);
}
