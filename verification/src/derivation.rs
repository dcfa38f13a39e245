//! Deterministic address derivation.
//!
//! Every platform, project and escrow account lives at an address computed
//! from a namespace tag and its parent identity, never chosen freely.  The
//! derivation is a pure function of the seeds and the program id; beside the
//! address it yields a bump seed, the proof value that lets later operations
//! re-check the derivation instead of verifying a signature.

use crate::store::clone_bytes;
use vstd::prelude::*;

verus! {

/// Seed tag of the platform configuration account: the bytes of "born2bewild".
pub open spec fn platform_tag() -> Seq<u8> {
    seq![98u8, 111u8, 114u8, 110u8, 50u8, 98u8, 101u8, 119u8, 105u8, 108u8, 100u8]
}

/// Seed tag of a project account: the bytes of "project".
pub open spec fn project_tag() -> Seq<u8> {
    seq![112u8, 114u8, 111u8, 106u8, 101u8, 99u8, 116u8]
}

/// Seed tag of a project's treasury account: the bytes of "treasury".
pub open spec fn treasury_tag() -> Seq<u8> {
    seq![116u8, 114u8, 101u8, 97u8, 115u8, 117u8, 114u8, 121u8]
}

/// The seed list of the platform configuration account.
pub open spec fn platform_seeds(name: Seq<u8>) -> Seq<Seq<u8>> {
    seq![platform_tag(), name]
}

/// The seed list of a project account.
pub open spec fn project_seeds(name: Seq<u8>) -> Seq<Seq<u8>> {
    seq![project_tag(), name]
}

/// The seed list of a project's treasury account.
pub open spec fn treasury_seeds(project_address: Seq<u8>) -> Seq<Seq<u8>> {
    seq![treasury_tag(), project_address]
}

/// What the bounded bump-seed search returns for a seed list and a program
/// id: the derived address and its bump, or nothing when the search is
/// exhausted.
pub uninterp spec fn derived_address(seeds: Seq<Seq<u8>>, program_id: Seq<u8>) -> Option<(Seq<u8>, u8)>;

/// What derivation without a search returns for a full seed list (bump
/// included) and a program id: the derived address, or nothing when the
/// seeds are rejected.
pub uninterp spec fn checked_address(seeds: Seq<Seq<u8>>, program_id: Seq<u8>) -> Option<Seq<u8>>;

/// Relies on Pubkey::try_find_program_address (solana-pubkey, reached through
/// anchor_lang): a bounded search over bump seeds whose result is a function
/// of the seeds and the program id alone; None when the search is exhausted
/// or the seeds are unusable; no panic.  Its source obtains the returned
/// address by running Pubkey::create_program_address on the seeds plus the
/// returned bump, which gives the second fact below.
#[verifier::external_body]
fn find_pda(seeds: &Vec<Vec<u8>>, program_id: &Vec<u8>) -> (r: Option<(Vec<u8>, u8)>)
    requires
        program_id@.len() == 32,
    ensures
        (r matches Some(p) ==> {
            &&& derived_address(seeds.deep_view(), program_id@) == Some((p.0@, p.1))
            &&& checked_address(seeds.deep_view().push(seq![p.1]), program_id@) == Some(p.0@)
            &&& p.0@.len() == 32
        }),
        r is None ==> derived_address(seeds.deep_view(), program_id@) is None,
{
    let parts: Vec<&[u8]> = seeds.iter().map(|s| s.as_slice()).collect();
    let pid = anchor_lang::prelude::Pubkey::try_from(program_id.as_slice()).unwrap();
    anchor_lang::prelude::Pubkey::try_find_program_address(&parts, &pid)
        .map(|(addr, bump)| (addr.to_bytes().to_vec(), bump))
}

/// Relies on Pubkey::create_program_address (solana-pubkey, reached through
/// anchor_lang): derivation of the address belonging to a full seed list, a
/// function of the seeds and the program id alone; None where the source
/// rejects the seeds; no panic.
#[verifier::external_body]
fn compute_pda(seeds: &Vec<Vec<u8>>, program_id: &Vec<u8>) -> (r: Option<Vec<u8>>)
    requires
        program_id@.len() == 32,
    ensures
        (r matches Some(a) ==> checked_address(seeds.deep_view(), program_id@) == Some(a@)
            && a@.len() == 32),
        r is None ==> checked_address(seeds.deep_view(), program_id@) is None,
{
    let parts: Vec<&[u8]> = seeds.iter().map(|s| s.as_slice()).collect();
    let pid = anchor_lang::prelude::Pubkey::try_from(program_id.as_slice()).unwrap();
    anchor_lang::prelude::Pubkey::create_program_address(&parts, &pid)
        .ok()
        .map(|addr| addr.to_bytes().to_vec())
}

/// The bytes of "born2bewild" as a vector.
fn platform_tag_vec() -> (r: Vec<u8>)
    ensures
        r@ == platform_tag(),
{
    let mut v: Vec<u8> = Vec::new();
    v.push(98u8);
    v.push(111u8);
    v.push(114u8);
    v.push(110u8);
    v.push(50u8);
    v.push(98u8);
    v.push(101u8);
    v.push(119u8);
    v.push(105u8);
    v.push(108u8);
    v.push(100u8);
    proof {
        assert(v@ =~= platform_tag());
    }
    v
}

/// The bytes of "project" as a vector.
fn project_tag_vec() -> (r: Vec<u8>)
    ensures
        r@ == project_tag(),
{
    let mut v: Vec<u8> = Vec::new();
    v.push(112u8);
    v.push(114u8);
    v.push(111u8);
    v.push(106u8);
    v.push(101u8);
    v.push(99u8);
    v.push(116u8);
    proof {
        assert(v@ =~= project_tag());
    }
    v
}

/// The bytes of "treasury" as a vector.
fn treasury_tag_vec() -> (r: Vec<u8>)
    ensures
        r@ == treasury_tag(),
{
    let mut v: Vec<u8> = Vec::new();
    v.push(116u8);
    v.push(114u8);
    v.push(101u8);
    v.push(97u8);
    v.push(115u8);
    v.push(117u8);
    v.push(114u8);
    v.push(121u8);
    proof {
        assert(v@ =~= treasury_tag());
    }
    v
}

/// Build the two-part seed list `[tag, part]`.
fn seed_pair(tag: Vec<u8>, part: &Vec<u8>) -> (r: Vec<Vec<u8>>)
    ensures
        r.deep_view() == seq![tag@, part@],
{
    let mut seeds: Vec<Vec<u8>> = Vec::new();
    seeds.push(tag);
    seeds.push(clone_bytes(part));
    proof {
        assert(seeds.deep_view() =~~= seq![tag@, part@]);
    }
    seeds
}

/// Derive the platform configuration address for a platform name.
pub fn derive_platform_address(program_id: &Vec<u8>, name: &Vec<u8>) -> (r: Option<(Vec<u8>, u8)>)
    requires
        program_id@.len() == 32,
    ensures
        (r matches Some(p) ==> {
            &&& derived_address(platform_seeds(name@), program_id@) == Some((p.0@, p.1))
            &&& checked_address(platform_seeds(name@).push(seq![p.1]), program_id@) == Some(p.0@)
            &&& p.0@.len() == 32
        }),
        r is None ==> derived_address(platform_seeds(name@), program_id@) is None,
{
    let seeds = seed_pair(platform_tag_vec(), name);
    find_pda(&seeds, program_id)
}

/// Derive the project account address for a project name.
pub fn derive_project_address(program_id: &Vec<u8>, name: &Vec<u8>) -> (r: Option<(Vec<u8>, u8)>)
    requires
        program_id@.len() == 32,
    ensures
        (r matches Some(p) ==> {
            &&& derived_address(project_seeds(name@), program_id@) == Some((p.0@, p.1))
            &&& checked_address(project_seeds(name@).push(seq![p.1]), program_id@) == Some(p.0@)
            &&& p.0@.len() == 32
        }),
        r is None ==> derived_address(project_seeds(name@), program_id@) is None,
{
    let seeds = seed_pair(project_tag_vec(), name);
    find_pda(&seeds, program_id)
}

/// Derive the treasury address for a project account address.
pub fn derive_treasury_address(program_id: &Vec<u8>, project_address: &Vec<u8>) -> (r: Option<(
    Vec<u8>,
    u8,
)>)
    requires
        program_id@.len() == 32,
    ensures
        (r matches Some(p) ==> {
            &&& derived_address(treasury_seeds(project_address@), program_id@) == Some((p.0@, p.1))
            &&& checked_address(treasury_seeds(project_address@).push(seq![p.1]), program_id@)
                == Some(p.0@)
            &&& p.0@.len() == 32
        }),
        r is None ==> derived_address(treasury_seeds(project_address@), program_id@) is None,
{
    let seeds = seed_pair(treasury_tag_vec(), project_address);
    find_pda(&seeds, program_id)
}

/// Recompute a derivation from its seeds plus bump and compare the outcome
/// with an expected address: this equality check, not a signature, is what
/// authorizes actions on behalf of a derived account.
pub fn verify_derivation(
    program_id: &Vec<u8>,
    seeds: Vec<Vec<u8>>,
    bump: u8,
    expected: &Vec<u8>,
) -> (r: bool)
    requires
        program_id@.len() == 32,
    ensures
        r == (checked_address(seeds.deep_view().push(seq![bump]), program_id@) == Some(expected@)),
{
    let ghost orig = seeds.deep_view();
    let mut full = seeds;
    let mut bump_part: Vec<u8> = Vec::new();
    bump_part.push(bump);
    proof {
        assert(bump_part@ =~= seq![bump]);
    }
    full.push(bump_part);
    proof {
        assert(full.deep_view() =~~= orig.push(seq![bump]));
    }
    match compute_pda(&full, program_id) {
        Some(addr) => crate::store::bytes_eq(&addr, expected),
        None => false,
    }
}

/// Check a platform's claim to its address: recompute the derivation from
/// the platform name and the stored bump, and compare.
pub fn verify_platform_derivation(
    program_id: &Vec<u8>,
    name: &Vec<u8>,
    bump: u8,
    expected: &Vec<u8>,
) -> (r: bool)
    requires
        program_id@.len() == 32,
    ensures
        r == (checked_address(platform_seeds(name@).push(seq![bump]), program_id@) == Some(
            expected@,
        )),
{
    let seeds = seed_pair(platform_tag_vec(), name);
    verify_derivation(program_id, seeds, bump, expected)
}

/// Check a treasury's claim to its address: recompute the derivation from
/// the project's address and the stored bump, and compare.
pub fn verify_treasury_derivation(
    program_id: &Vec<u8>,
    project_address: &Vec<u8>,
    bump: u8,
    expected: &Vec<u8>,
) -> (r: bool)
    requires
        program_id@.len() == 32,
    ensures
        r == (checked_address(treasury_seeds(project_address@).push(seq![bump]), program_id@)
            == Some(expected@)),
{
    let seeds = seed_pair(treasury_tag_vec(), project_address);
    verify_derivation(program_id, seeds, bump, expected)
}

} // verus!
