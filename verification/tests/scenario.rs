//! The end-to-end scenario: initialize, create, contribute, withdraw.

use born2bewild::errors::DonationProjectError;
use born2bewild::ledger::Ledger;

fn pid() -> Vec<u8> {
    vec![7u8; 32]
}

fn name_of(s: &str) -> Vec<u8> {
    s.as_bytes().to_vec()
}

fn ready_ledger() -> (Ledger, Vec<u8>) {
    let mut l = Ledger::new(pid());
    let mint = vec![9u8; 32];
    let admin = vec![1u8; 32];
    assert!(l.init(admin, name_of("wild"), mint.clone()).is_ok());
    (l, mint)
}

#[test]
fn full_scenario() {
    let (mut l, mint) = ready_ledger();
    let creator = vec![2u8; 32];
    let tigers = name_of("tigers");
    assert!(l
        .create_project(
            creator.clone(),
            tigers.clone(),
            name_of("protect tigers"),
            name_of("asia"),
            1000,
            name_of("tiger"),
        )
        .is_ok());
    assert_eq!(l.total_balance(&tigers), Some(0));

    let donor = vec![3u8; 32];
    assert!(l.deposit(&donor, 1_000_000).is_ok());
    let receipt = l.donate(donor.clone(), &tigers, &mint, 100).unwrap();
    assert_eq!(receipt.amount, 100);
    assert_eq!(receipt.minted, 10_000);
    assert_eq!(receipt.donor, donor);
    assert_eq!(l.total_balance(&tigers), Some(100));
    assert_eq!(l.balance_of(&donor), 10_000);
    assert_eq!(l.get_balance(&donor), 1_000_000 - 100);

    assert!(l.withdraw(&creator, &tigers, 50).is_ok());
    assert_eq!(l.total_balance(&tigers), Some(50));
    assert_eq!(l.get_balance(&creator), 50);

    let too_much = l.withdraw(&creator, &tigers, 51);
    assert_eq!(too_much, Err(DonationProjectError::InsufficientFunds));
    assert_eq!(l.total_balance(&tigers), Some(50));
    assert_eq!(l.get_balance(&creator), 50);

    let stranger = vec![4u8; 32];
    let unauthorized = l.withdraw(&stranger, &tigers, 10);
    assert_eq!(unauthorized, Err(DonationProjectError::UnauthorizedWithdrawal));
    assert_eq!(l.total_balance(&tigers), Some(50));
    assert_eq!(l.get_balance(&stranger), 0);
}

#[test]
fn lock_step_holds_across_operations() {
    let (mut l, mint) = ready_ledger();
    let creator = vec![2u8; 32];
    let lions = name_of("lions");
    let bears = name_of("bears");
    l.create_project(
        creator.clone(),
        lions.clone(),
        name_of("d"),
        name_of("l"),
        500,
        name_of("lion"),
    )
    .unwrap();
    l.create_project(
        creator.clone(),
        bears.clone(),
        name_of("d"),
        name_of("l"),
        500,
        name_of("bear"),
    )
    .unwrap();
    let donor = vec![3u8; 32];
    l.deposit(&donor, 10_000).unwrap();

    let mut expected_lions: u64 = 0;
    let mut expected_bears: u64 = 0;
    for step in 0..6u64 {
        if step % 2 == 0 {
            l.donate(donor.clone(), &lions, &mint, 10 + step).unwrap();
            expected_lions += 10 + step;
        } else {
            l.donate(donor.clone(), &bears, &mint, 20 + step).unwrap();
            expected_bears += 20 + step;
        }
        assert_eq!(l.total_balance(&lions), Some(expected_lions));
        assert_eq!(l.total_balance(&bears), Some(expected_bears));
    }
    l.withdraw(&creator, &lions, 5).unwrap();
    expected_lions -= 5;
    assert_eq!(l.total_balance(&lions), Some(expected_lions));
    assert_eq!(l.total_balance(&bears), Some(expected_bears));
}

#[test]
fn contributions_sum_to_total_raised() {
    let (mut l, mint) = ready_ledger();
    let creator = vec![2u8; 32];
    let rhinos = name_of("rhinos");
    l.create_project(
        creator,
        rhinos.clone(),
        name_of("d"),
        name_of("l"),
        9_999,
        name_of("rhino"),
    )
    .unwrap();
    let donor = vec![3u8; 32];
    l.deposit(&donor, 100_000).unwrap();
    let amounts = [10u64, 20, 30, 40];
    let mut sum: u64 = 0;
    for a in amounts {
        let receipt = l.donate(donor.clone(), &rhinos, &mint, a).unwrap();
        assert_eq!(receipt.minted, a * 100);
        sum += a;
    }
    assert_eq!(l.total_balance(&rhinos), Some(sum));
    assert_eq!(l.balance_of(&donor), sum * 100);
}
