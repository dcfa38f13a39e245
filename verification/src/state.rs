//! The persisted records: the platform configuration, the projects, and the
//! receipt a contribution produces.

use crate::derivation::{
    checked_address, derived_address, platform_seeds, project_seeds, treasury_seeds,
};
use vstd::prelude::*;

verus! {

/// The platform configuration, one per deployment: the admin identity, the
/// platform name, the reward-token mint the platform is the minting
/// authority of, and the platform's own derived address with its bump.
pub struct Config {
    pub admin: Vec<u8>,
    pub name: Vec<u8>,
    pub bump: u8,
    pub wild_token_mint: Vec<u8>,
    pub address: Vec<u8>,
}

/// One fundraising project: its creator, metadata, funding target, running
/// total of donations, and the derived addresses (with bumps) of the project
/// record itself and of its treasury.
pub struct DonationProject {
    pub creator: Vec<u8>,
    pub name: Vec<u8>,
    pub description: Vec<u8>,
    pub location: Vec<u8>,
    pub target_amount: u64,
    pub target_animal: Vec<u8>,
    pub total_donation: u64,
    pub address: Vec<u8>,
    pub project_bump: u8,
    pub treasury: Vec<u8>,
    pub treasury_bump: u8,
}

/// The receipt of one contribution: who gave, how much base currency moved
/// into the escrow, and how much reward credit was minted in exchange.
#[derive(Debug)]
pub struct Donation {
    pub donor: Vec<u8>,
    pub amount: u64,
    pub minted: u64,
}

/// A platform configuration is well formed when its name has a legal length
/// and its recorded address and bump really are the derivation of its name
/// under `program_id` — re-derivable with the bump alone.
pub open spec fn config_wf(c: Config, program_id: Seq<u8>) -> bool {
    &&& 1 <= c.name@.len() <= 32
    &&& derived_address(platform_seeds(c.name@), program_id) == Some((c.address@, c.bump))
    &&& checked_address(platform_seeds(c.name@).push(seq![c.bump]), program_id) == Some(c.address@)
}

/// A project is well formed when its name has a legal length, its recorded
/// address and bump are the derivation of its name, and its treasury address
/// and bump are the derivation of the project's own address — each
/// re-derivable with its bump alone.
pub open spec fn project_wf(p: DonationProject, program_id: Seq<u8>) -> bool {
    &&& 1 <= p.name@.len() <= 32
    &&& derived_address(project_seeds(p.name@), program_id) == Some((p.address@, p.project_bump))
    &&& checked_address(project_seeds(p.name@).push(seq![p.project_bump]), program_id) == Some(
        p.address@,
    )
    &&& derived_address(treasury_seeds(p.address@), program_id) == Some(
        (p.treasury@, p.treasury_bump),
    )
    &&& checked_address(treasury_seeds(p.address@).push(seq![p.treasury_bump]), program_id)
        == Some(p.treasury@)
}

} // verus!
