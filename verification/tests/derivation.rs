//! The address derivation: determinism, shape, proof checking, and the
//! escrow-only-by-proof rule seen from outside.

use born2bewild::derivation::{
    derive_platform_address, derive_project_address, derive_treasury_address,
    verify_platform_derivation, verify_treasury_derivation,
};
use born2bewild::errors::DonationError;
use born2bewild::ledger::Ledger;

fn pid() -> Vec<u8> {
    vec![7u8; 32]
}

fn name_of(s: &str) -> Vec<u8> {
    s.as_bytes().to_vec()
}

#[test]
fn derivation_is_deterministic() {
    let name = name_of("tigers");
    let a = derive_project_address(&pid(), &name).unwrap();
    let b = derive_project_address(&pid(), &name).unwrap();
    assert_eq!(a, b);
    let c = derive_platform_address(&pid(), &name_of("wild")).unwrap();
    let d = derive_platform_address(&pid(), &name_of("wild")).unwrap();
    assert_eq!(c, d);
}

#[test]
fn derived_addresses_are_32_bytes_and_not_the_seeds() {
    let name = name_of("tigers");
    let (addr, _bump) = derive_project_address(&pid(), &name).unwrap();
    assert_eq!(addr.len(), 32);
    assert_ne!(addr, name);
    assert_ne!(addr, pid());
}

#[test]
fn distinct_seeds_give_distinct_addresses() {
    let (tigers, _) = derive_project_address(&pid(), &name_of("tigers")).unwrap();
    let (lions, _) = derive_project_address(&pid(), &name_of("lions")).unwrap();
    assert_ne!(tigers, lions);
    // the same name under another namespace tag lands elsewhere too
    let (platform, _) = derive_platform_address(&pid(), &name_of("tigers")).unwrap();
    assert_ne!(tigers, platform);
}

#[test]
fn treasury_derives_from_the_project_address() {
    let (project, _) = derive_project_address(&pid(), &name_of("tigers")).unwrap();
    let (treasury_a, bump_a) = derive_treasury_address(&pid(), &project).unwrap();
    let (treasury_b, bump_b) = derive_treasury_address(&pid(), &project).unwrap();
    assert_eq!(treasury_a, treasury_b);
    assert_eq!(bump_a, bump_b);
    assert_ne!(treasury_a, project);
}

#[test]
fn verification_accepts_the_found_bump_and_refuses_others() {
    let name = name_of("wild");
    let (addr, bump) = derive_platform_address(&pid(), &name).unwrap();
    assert!(verify_platform_derivation(&pid(), &name, bump, &addr));
    assert!(!verify_platform_derivation(&pid(), &name, bump.wrapping_sub(1), &addr));
    assert!(!verify_platform_derivation(&pid(), &name_of("tame"), bump, &addr));

    let (project, _) = derive_project_address(&pid(), &name_of("tigers")).unwrap();
    let (treasury, tbump) = derive_treasury_address(&pid(), &project).unwrap();
    assert!(verify_treasury_derivation(&pid(), &project, tbump, &treasury));
    assert!(!verify_treasury_derivation(&pid(), &project, tbump.wrapping_sub(1), &treasury));
}

#[test]
fn escrow_takes_no_direct_funding_and_cannot_sign() {
    let mut l = Ledger::new(pid());
    let mint = vec![9u8; 32];
    l.init(vec![1u8; 32], name_of("wild"), mint.clone()).unwrap();
    let tigers = name_of("tigers");
    l.create_project(
        vec![2u8; 32],
        tigers.clone(),
        name_of("d"),
        name_of("l"),
        1000,
        name_of("tiger"),
    )
    .unwrap();
    let (project, _) = derive_project_address(&pid(), &tigers).unwrap();
    let (treasury, _) = derive_treasury_address(&pid(), &project).unwrap();

    let funded = l.deposit(&treasury, 5);
    assert_eq!(funded, Err(DonationError::EscrowAuthorityRequired));
    assert_eq!(l.total_balance(&tigers), Some(0));

    let signed = l.donate(treasury.clone(), &tigers, &mint, 1);
    assert_eq!(signed.unwrap_err(), DonationError::EscrowAuthorityRequired);
    assert_eq!(l.total_balance(&tigers), Some(0));
}
