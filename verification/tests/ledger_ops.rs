//! Operation-by-operation behavior: errors, atomicity, authorization.

use born2bewild::errors::{ConfigError, DonationError, DonationProjectError};
use born2bewild::ledger::{Ledger, EXCHANGE_RATE};

fn pid() -> Vec<u8> {
    vec![7u8; 32]
}

fn name_of(s: &str) -> Vec<u8> {
    s.as_bytes().to_vec()
}

fn ready_ledger() -> (Ledger, Vec<u8>) {
    let mut l = Ledger::new(pid());
    let mint = vec![9u8; 32];
    assert!(l.init(vec![1u8; 32], name_of("wild"), mint.clone()).is_ok());
    (l, mint)
}

fn ledger_with_project() -> (Ledger, Vec<u8>, Vec<u8>, Vec<u8>) {
    let (mut l, mint) = ready_ledger();
    let creator = vec![2u8; 32];
    let tigers = name_of("tigers");
    l.create_project(
        creator.clone(),
        tigers.clone(),
        name_of("d"),
        name_of("l"),
        1000,
        name_of("tiger"),
    )
    .unwrap();
    (l, mint, creator, tigers)
}

#[test]
fn init_rejects_empty_name() {
    let mut l = Ledger::new(pid());
    let r = l.init(vec![1u8; 32], Vec::new(), vec![9u8; 32]);
    assert_eq!(r, Err(ConfigError::NameTooLong));
}

#[test]
fn init_rejects_long_name() {
    let mut l = Ledger::new(pid());
    let r = l.init(vec![1u8; 32], vec![97u8; 33], vec![9u8; 32]);
    assert_eq!(r, Err(ConfigError::NameTooLong));
}

#[test]
fn init_accepts_boundary_name_lengths() {
    let mut a = Ledger::new(pid());
    assert!(a.init(vec![1u8; 32], vec![97u8; 1], vec![9u8; 32]).is_ok());
    let mut b = Ledger::new(pid());
    assert!(b.init(vec![1u8; 32], vec![97u8; 32], vec![9u8; 32]).is_ok());
}

#[test]
fn init_rejects_second_initialization() {
    let (mut l, _mint) = ready_ledger();
    let r = l.init(vec![5u8; 32], name_of("other"), vec![8u8; 32]);
    assert_eq!(r, Err(ConfigError::AlreadyInitialized));
}

#[test]
fn create_requires_platform() {
    let mut l = Ledger::new(pid());
    let r = l.create_project(
        vec![2u8; 32],
        name_of("tigers"),
        name_of("d"),
        name_of("l"),
        10,
        name_of("tiger"),
    );
    assert_eq!(r, Err(DonationProjectError::PlatformNotInitialized));
}

#[test]
fn create_rejects_bad_names() {
    let (mut l, _mint) = ready_ledger();
    let empty = l.create_project(
        vec![2u8; 32],
        Vec::new(),
        name_of("d"),
        name_of("l"),
        10,
        name_of("x"),
    );
    assert_eq!(empty, Err(DonationProjectError::NameTooLong));
    let long = l.create_project(
        vec![2u8; 32],
        vec![97u8; 33],
        name_of("d"),
        name_of("l"),
        10,
        name_of("x"),
    );
    assert_eq!(long, Err(DonationProjectError::NameTooLong));
}

#[test]
fn create_rejects_duplicate_name() {
    let (mut l, _mint, _creator, tigers) = ledger_with_project();
    let r = l.create_project(
        vec![6u8; 32],
        tigers,
        name_of("other words"),
        name_of("elsewhere"),
        77,
        name_of("tiger"),
    );
    assert_eq!(r, Err(DonationProjectError::ProjectAlreadyExists));
}

#[test]
fn donate_rejects_zero_amount() {
    let (mut l, mint, _creator, tigers) = ledger_with_project();
    let r = l.donate(vec![3u8; 32], &tigers, &mint, 0);
    assert_eq!(r.unwrap_err(), DonationError::InvalidDonationAmount);
}

#[test]
fn donate_rejects_unknown_project() {
    let (mut l, mint) = ready_ledger();
    let r = l.donate(vec![3u8; 32], &name_of("nobody"), &mint, 5);
    assert_eq!(r.unwrap_err(), DonationError::ProjectNotFound);
}

#[test]
fn donate_rejects_poor_donor() {
    let (mut l, mint, _creator, tigers) = ledger_with_project();
    let donor = vec![3u8; 32];
    l.deposit(&donor, 10).unwrap();
    let r = l.donate(donor.clone(), &tigers, &mint, 11);
    assert_eq!(r.unwrap_err(), DonationError::InsufficientBalance);
    assert_eq!(l.get_balance(&donor), 10);
    assert_eq!(l.total_balance(&tigers), Some(0));
}

#[test]
fn donate_rejects_oversized_amount() {
    let (mut l, mint, _creator, tigers) = ledger_with_project();
    let donor = vec![3u8; 32];
    l.deposit(&donor, u64::MAX).unwrap();
    let r = l.donate(donor, &tigers, &mint, u64::MAX / EXCHANGE_RATE + 1);
    assert_eq!(r.unwrap_err(), DonationError::Overflow);
}

#[test]
fn failed_mint_rolls_the_transfer_back() {
    let (mut l, _mint, _creator, tigers) = ledger_with_project();
    let donor = vec![3u8; 32];
    l.deposit(&donor, 500).unwrap();
    let wrong_mint = vec![8u8; 32];
    let r = l.donate(donor.clone(), &tigers, &wrong_mint, 100);
    assert_eq!(r.unwrap_err(), DonationError::MintUnauthorized);
    assert_eq!(l.get_balance(&donor), 500);
    assert_eq!(l.balance_of(&donor), 0);
    assert_eq!(l.total_balance(&tigers), Some(0));
}

#[test]
fn reward_overflow_rolls_the_transfer_back() {
    let (mut l, mint, _creator, tigers) = ledger_with_project();
    let donor = vec![3u8; 32];
    l.deposit(&donor, u64::MAX).unwrap();
    let big = u64::MAX / EXCHANGE_RATE;
    l.donate(donor.clone(), &tigers, &mint, big).unwrap();
    assert_eq!(l.balance_of(&donor), big * EXCHANGE_RATE);
    assert_eq!(l.total_balance(&tigers), Some(big));
    // a second maximal contribution would wrap the reward balance
    let r = l.donate(donor.clone(), &tigers, &mint, big);
    assert_eq!(r.unwrap_err(), DonationError::Overflow);
    assert_eq!(l.get_balance(&donor), u64::MAX - big);
    assert_eq!(l.balance_of(&donor), big * EXCHANGE_RATE);
    assert_eq!(l.total_balance(&tigers), Some(big));
}

#[test]
fn total_overflow_fails_closed() {
    let (mut l, mint, _creator, tigers) = ledger_with_project();
    let big = u64::MAX / EXCHANGE_RATE;
    for i in 0..100u8 {
        let donor = vec![i.wrapping_add(10); 32];
        l.deposit(&donor, big).unwrap();
        l.donate(donor, &tigers, &mint, big).unwrap();
    }
    assert_eq!(l.total_balance(&tigers), Some(big * 100));
    let late = vec![250u8; 32];
    l.deposit(&late, 16).unwrap();
    let r = l.donate(late.clone(), &tigers, &mint, 16);
    assert_eq!(r.unwrap_err(), DonationError::Overflow);
    assert_eq!(l.get_balance(&late), 16);
    assert_eq!(l.total_balance(&tigers), Some(big * 100));
}

#[test]
fn exchange_rate_is_exact() {
    let (mut l, mint, _creator, tigers) = ledger_with_project();
    let donor = vec![3u8; 32];
    l.deposit(&donor, 1000).unwrap();
    let receipt = l.donate(donor.clone(), &tigers, &mint, 7).unwrap();
    assert_eq!(receipt.minted, 7 * EXCHANGE_RATE);
    assert_eq!(l.balance_of(&donor), 700);
}

#[test]
fn withdraw_rejects_unknown_project() {
    let (mut l, _mint) = ready_ledger();
    let r = l.withdraw(&vec![2u8; 32], &name_of("nobody"), 1);
    assert_eq!(r, Err(DonationProjectError::ProjectNotFound));
}

#[test]
fn withdraw_by_non_creator_fails_for_any_amount() {
    let (mut l, mint, _creator, tigers) = ledger_with_project();
    let donor = vec![3u8; 32];
    l.deposit(&donor, 100).unwrap();
    l.donate(donor, &tigers, &mint, 40).unwrap();
    let stranger = vec![5u8; 32];
    for amount in [0u64, 1, 40, 41, u64::MAX] {
        let r = l.withdraw(&stranger, &tigers, amount);
        assert_eq!(r, Err(DonationProjectError::UnauthorizedWithdrawal));
        assert_eq!(l.total_balance(&tigers), Some(40));
        assert_eq!(l.get_balance(&stranger), 0);
    }
}

#[test]
fn withdraw_of_zero_by_creator_is_allowed() {
    let (mut l, _mint, creator, tigers) = ledger_with_project();
    assert!(l.withdraw(&creator, &tigers, 0).is_ok());
    assert_eq!(l.total_balance(&tigers), Some(0));
}

#[test]
fn withdraw_overflow_on_recipient_fails_closed() {
    let (mut l, mint, creator, tigers) = ledger_with_project();
    let donor = vec![3u8; 32];
    l.deposit(&donor, 100).unwrap();
    l.donate(donor, &tigers, &mint, 60).unwrap();
    l.deposit(&creator, u64::MAX).unwrap();
    let r = l.withdraw(&creator, &tigers, 60);
    assert_eq!(r, Err(DonationProjectError::Overflow));
    assert_eq!(l.total_balance(&tigers), Some(60));
    assert_eq!(l.get_balance(&creator), u64::MAX);
}

#[test]
fn deposit_rejects_wrapping_balance() {
    let (mut l, _mint) = ready_ledger();
    let who = vec![3u8; 32];
    l.deposit(&who, u64::MAX).unwrap();
    let r = l.deposit(&who, 1);
    assert_eq!(r, Err(DonationError::Overflow));
    assert_eq!(l.get_balance(&who), u64::MAX);
}

#[test]
fn balances_start_at_zero() {
    let (l, _mint) = ready_ledger();
    let nobody = vec![42u8; 32];
    assert_eq!(l.get_balance(&nobody), 0);
    assert_eq!(l.balance_of(&nobody), 0);
    assert_eq!(l.total_balance(&name_of("nothing")), None);
}
