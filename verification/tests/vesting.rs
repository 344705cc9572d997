use solstream::engine::{calculate_claimable_amount, initialize_stream, withdraw};
use solstream::errors::ErrorCode;
use solstream::stream::{AccountId, VestingAccount};

fn id(tag: u8) -> AccountId {
    AccountId([tag; 32])
}

fn stream(total_amount: u64, start_time: i64, end_time: i64, cliff_duration: i64) -> VestingAccount {
    initialize_stream(
        id(1),
        id(2),
        id(3),
        id(4),
        255,
        total_amount,
        start_time,
        end_time,
        cliff_duration,
    )
    .expect("valid creation parameters")
}

#[test]
fn creation_rejects_zero_amount() {
    let r = initialize_stream(id(1), id(2), id(3), id(4), 0, 0, 0, 1000, 0);
    assert_eq!(r, Err(ErrorCode::InvalidAmount));
}

#[test]
fn creation_rejects_end_equal_to_start() {
    let r = initialize_stream(id(1), id(2), id(3), id(4), 0, 1000, 500, 500, 0);
    assert_eq!(r, Err(ErrorCode::InvalidTimeRange));
}

#[test]
fn creation_rejects_inverted_time_range() {
    let r = initialize_stream(id(1), id(2), id(3), id(4), 0, 1000, 500, 400, 0);
    assert_eq!(r, Err(ErrorCode::InvalidTimeRange));
}

#[test]
fn creation_rejects_negative_cliff() {
    let r = initialize_stream(id(1), id(2), id(3), id(4), 0, 1000, 0, 1000, -1);
    assert_eq!(r, Err(ErrorCode::InvalidCliffDuration));
}

#[test]
fn creation_sets_every_field() {
    let acct = stream(1000, 10, 2010, 100);
    assert_eq!(acct.sender, id(1));
    assert_eq!(acct.beneficiary, id(2));
    assert_eq!(acct.mint, id(3));
    assert_eq!(acct.vault, id(4));
    assert_eq!(acct.bump, 255);
    assert_eq!(acct.total_amount, 1000);
    assert_eq!(acct.start_time, 10);
    assert_eq!(acct.end_time, 2010);
    assert_eq!(acct.cliff_duration, 100);
    assert_eq!(acct.amount_withdrawn, 0);
}

#[test]
fn creation_accepts_past_and_future_starts() {
    assert!(initialize_stream(id(1), id(2), id(3), id(4), 0, 1, -5000, -4000, 0).is_ok());
    assert!(initialize_stream(id(1), id(2), id(3), id(4), 0, 1, 5000, 9000, 0).is_ok());
}

#[test]
fn nothing_claimable_before_cliff() {
    // total 1000, start 0, end 1000, cliff 100: at now = 50 the cliff has
    // not elapsed yet, even though vesting nominally began at 0.
    let r = calculate_claimable_amount(1000, 0, 1000, 100, 0, 50);
    assert_eq!(r, Ok(0));
    let r = calculate_claimable_amount(1000, 0, 1000, 100, 0, 99);
    assert_eq!(r, Ok(0));
    let r = calculate_claimable_amount(1000, 0, 1000, 100, 0, -100);
    assert_eq!(r, Ok(0));
}

#[test]
fn claimable_at_cliff_matches_elapsed_share() {
    let r = calculate_claimable_amount(1000, 0, 1000, 100, 0, 100);
    assert_eq!(r, Ok(100));
}

#[test]
fn claimable_midway_is_linear() {
    let r = calculate_claimable_amount(1000, 0, 1000, 100, 0, 500);
    assert_eq!(r, Ok(500));
}

#[test]
fn claimable_after_end_is_remaining_balance() {
    let r = calculate_claimable_amount(1000, 0, 1000, 100, 0, 1000);
    assert_eq!(r, Ok(1000));
    let r = calculate_claimable_amount(1000, 0, 1000, 100, 300, 2000);
    assert_eq!(r, Ok(700));
}

#[test]
fn claimable_truncates_toward_zero() {
    // floor(10 * 1 / 3) = 3, never rounded up.
    let r = calculate_claimable_amount(10, 0, 3, 0, 0, 1);
    assert_eq!(r, Ok(3));
    let r = calculate_claimable_amount(10, 0, 3, 0, 0, 2);
    assert_eq!(r, Ok(6));
}

#[test]
fn claimable_survives_huge_products() {
    // total * elapsed far exceeds 64 bits; the widened domain must carry it.
    let total = u64::MAX;
    let r = calculate_claimable_amount(total, 0, i64::MAX, 0, 0, i64::MAX / 2);
    let expected = (u128::from(total) * ((i64::MAX / 2) as u128) / (i64::MAX as u128)) as u64;
    assert_eq!(r, Ok(expected));
}

#[test]
fn claimable_reports_cliff_overflow() {
    let r = calculate_claimable_amount(5, i64::MAX - 10, i64::MAX - 5, 100, 0, 0);
    assert_eq!(r, Err(ErrorCode::MathOverflow));
}

#[test]
fn claimable_saturates_when_withdrawn_leads_vested() {
    // floor(10 * 1 / 3) = 3 < 4 already withdrawn: saturate at 0, no underflow.
    let r = calculate_claimable_amount(10, 0, 3, 0, 4, 1);
    assert_eq!(r, Ok(0));
}

#[test]
fn claimable_is_monotonic_over_sample_instants() {
    let mut previous: u64 = 0;
    let instants = [-50, 0, 99, 100, 250, 333, 500, 999, 1000, 5000];
    for now in instants {
        let c = calculate_claimable_amount(997, 0, 1000, 100, 0, now).unwrap();
        assert!(c >= previous);
        previous = c;
    }
}

#[test]
fn withdraw_pays_claimable_and_records_it() {
    let mut acct = stream(1000, 0, 1000, 100);
    let paid = withdraw(&mut acct, 1000, 500).expect("claimable at 500");
    assert_eq!(paid, 500);
    assert_eq!(acct.amount_withdrawn, 500);
    assert_eq!(acct.total_amount, 1000);
}

#[test]
fn withdraw_twice_at_same_instant_yields_nothing() {
    let mut acct = stream(1000, 0, 1000, 100);
    let paid = withdraw(&mut acct, 1000, 500).expect("first call pays");
    assert_eq!(paid, 500);
    let second = withdraw(&mut acct, 500, 500);
    assert_eq!(second, Err(ErrorCode::NothingToWithdraw));
    assert_eq!(acct.amount_withdrawn, 500);
}

#[test]
fn withdraw_before_cliff_yields_nothing() {
    let mut acct = stream(1000, 0, 1000, 100);
    let r = withdraw(&mut acct, 1000, 50);
    assert_eq!(r, Err(ErrorCode::NothingToWithdraw));
    assert_eq!(acct.amount_withdrawn, 0);
}

#[test]
fn withdraw_rejects_short_vault() {
    let mut acct = stream(1000, 0, 1000, 100);
    let r = withdraw(&mut acct, 499, 500);
    assert_eq!(r, Err(ErrorCode::InsufficientVaultFunds));
    assert_eq!(acct.amount_withdrawn, 0);
}

#[test]
fn withdraw_reports_cliff_overflow_unchanged() {
    let mut acct = stream(5, i64::MAX - 10, i64::MAX - 5, 0);
    acct.cliff_duration = 100;
    let r = withdraw(&mut acct, 5, 0);
    assert_eq!(r, Err(ErrorCode::MathOverflow));
    assert_eq!(acct.amount_withdrawn, 0);
}

#[test]
fn full_scenario_with_capped_tail() {
    // total 1000, start 0, end 1000, cliff 100.
    let mut acct = stream(1000, 0, 1000, 100);
    let mut vault: u64 = 1000;

    assert_eq!(calculate_claimable_amount(1000, 0, 1000, 100, 0, 50), Ok(0));
    assert_eq!(calculate_claimable_amount(1000, 0, 1000, 100, 0, 100), Ok(100));
    assert_eq!(calculate_claimable_amount(1000, 0, 1000, 100, 0, 500), Ok(500));

    let paid = withdraw(&mut acct, vault, 500).expect("midway withdrawal");
    assert_eq!(paid, 500);
    vault -= paid;

    // After withdrawing at 500, only the other half remains at the end...
    let r = withdraw(&mut acct, vault, 1000).expect("final withdrawal");
    assert_eq!(r, 500);
    vault -= r;

    // ...and nothing further vests beyond the total.
    assert_eq!(vault, 0);
    assert_eq!(acct.amount_withdrawn, 1000);
    let tail = withdraw(&mut acct, vault, 2000);
    assert_eq!(tail, Err(ErrorCode::NothingToWithdraw));
}

#[test]
fn conservation_across_a_sequence_of_withdrawals() {
    let mut acct = stream(997, -100, 900, 0);
    let mut vault: u64 = 997;
    let instants = [-100, 0, 1, 333, 334, 500, 899, 900, 10_000];
    for now in instants {
        match withdraw(&mut acct, vault, now) {
            Ok(paid) => {
                assert!(paid > 0);
                vault -= paid;
            }
            Err(e) => assert_eq!(e, ErrorCode::NothingToWithdraw),
        }
        assert!(acct.amount_withdrawn <= acct.total_amount);
        assert_eq!(vault, acct.total_amount - acct.amount_withdrawn);
    }
    assert_eq!(vault, 0);
    assert_eq!(acct.amount_withdrawn, 997);
}
