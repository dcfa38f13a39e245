//! The escrow accounting engine.
//!
//! A `Ledger` holds the whole state one deployment sees: the platform
//! configuration, the recorded projects, and two flat account stores — base
//! currency (including every project's treasury) and the reward token.  Each
//! operation either applies its full effect or, on any error, leaves every
//! balance and every record exactly as it was.  Well-formedness ties each
//! project's recorded running total to the balance its treasury actually
//! holds; every operation preserves it.

use crate::derivation::{
    derive_platform_address, derive_project_address, derive_treasury_address, derived_address,
    platform_seeds, project_seeds, treasury_seeds, verify_platform_derivation,
    verify_treasury_derivation,
};
use crate::errors::{ConfigError, DonationError, DonationProjectError};
use crate::state::{config_wf, project_wf, Config, Donation, DonationProject};
use crate::store::{bal_of, balance_in, bytes_eq, clone_bytes, credit, debit, BalanceEntry};
use vstd::prelude::*;

verus! {

/// Reward credit minted per unit of base currency contributed.
pub const EXCHANGE_RATE: u64 = 100;

/// The full state of one deployment.
pub struct Ledger {
    /// The 32-byte program id every derivation is rooted in.
    pub program_id: Vec<u8>,
    /// The platform configuration, once initialized.
    pub platform: Option<Config>,
    /// The recorded projects.
    pub projects: Vec<DonationProject>,
    /// Base-currency balances, treasuries included.
    pub lamports: Vec<BalanceEntry>,
    /// Reward-token balances.
    pub wild: Vec<BalanceEntry>,
}

/// Index of the first project with the given name, or -1 when none has it.
pub open spec fn project_index(s: Seq<DonationProject>, name: Seq<u8>) -> int
    decreases s.len(),
{
    if s.len() == 0 {
        -1
    } else if s[0].name@ == name {
        0
    } else {
        let r = project_index(s.drop_first(), name);
        if r == -1 {
            -1
        } else {
            r + 1
        }
    }
}

/// Whether some project carries the given name.
pub open spec fn has_project(s: Seq<DonationProject>, name: Seq<u8>) -> bool {
    exists|i: int| 0 <= i < s.len() && s[i].name@ == name
}

/// Whether `addr` is the treasury address of some recorded project.
pub open spec fn is_escrow(s: Seq<DonationProject>, addr: Seq<u8>) -> bool {
    exists|i: int| 0 <= i < s.len() && s[i].treasury@ == addr
}

/// Whether `addr` is the record address of some recorded project.
pub open spec fn is_project_address(s: Seq<DonationProject>, addr: Seq<u8>) -> bool {
    exists|i: int| 0 <= i < s.len() && s[i].address@ == addr
}

/// The mint the platform is the authority of, or the empty sequence before
/// initialization.
pub open spec fn platform_mint(l: Ledger) -> Seq<u8> {
    match l.platform {
        Some(c) => c.wild_token_mint@,
        None => Seq::<u8>::empty(),
    }
}

/// The same project with a new running total.
pub open spec fn with_total(p: DonationProject, total: u64) -> DonationProject {
    DonationProject { total_donation: total, ..p }
}

/// A first match at `i` pins `project_index` to `i`.
pub proof fn lemma_project_index_first_match(s: Seq<DonationProject>, name: Seq<u8>, i: int)
    requires
        0 <= i < s.len(),
        s[i].name@ == name,
        forall|j: int| 0 <= j < i ==> s[j].name@ != name,
    ensures
        project_index(s, name) == i,
    decreases i,
{
    if i > 0 {
        lemma_project_index_first_match(s.drop_first(), name, i - 1);
    }
}

/// No match anywhere pins `project_index` to -1.
pub proof fn lemma_project_index_none(s: Seq<DonationProject>, name: Seq<u8>)
    requires
        forall|j: int| 0 <= j < s.len() ==> s[j].name@ != name,
    ensures
        project_index(s, name) == -1,
    decreases s.len(),
{
    if s.len() > 0 {
        lemma_project_index_none(s.drop_first(), name);
    }
}

/// The index of the first project with the given name, if any.
fn find_project(projects: &Vec<DonationProject>, name: &Vec<u8>) -> (r: Option<usize>)
    ensures
        (r matches Some(i) ==> {
            &&& i < projects@.len()
            &&& project_index(projects@, name@) == i as int
        }),
        r is None ==> project_index(projects@, name@) == -1,
{
    let mut i: usize = 0;
    while i < projects.len()
        invariant
            i <= projects@.len(),
            forall|j: int| 0 <= j < i ==> projects@[j].name@ != name@,
        decreases projects@.len() - i,
    {
        if bytes_eq(&projects[i].name, name) {
            proof {
                lemma_project_index_first_match(projects@, name@, i as int);
            }
            return Some(i);
        }
        i = i + 1;
    }
    proof {
        lemma_project_index_none(projects@, name@);
    }
    None
}

/// Whether some recorded project's record sits at this address.
fn address_taken(projects: &Vec<DonationProject>, addr: &Vec<u8>) -> (r: bool)
    ensures
        r == is_project_address(projects@, addr@),
{
    let mut i: usize = 0;
    while i < projects.len()
        invariant
            i <= projects@.len(),
            forall|j: int| 0 <= j < i ==> projects@[j].address@ != addr@,
        decreases projects@.len() - i,
    {
        if bytes_eq(&projects[i].address, addr) {
            return true;
        }
        i = i + 1;
    }
    false
}

/// Whether some recorded project's treasury sits at this address.
fn escrow_taken(projects: &Vec<DonationProject>, addr: &Vec<u8>) -> (r: bool)
    ensures
        r == is_escrow(projects@, addr@),
{
    let mut i: usize = 0;
    while i < projects.len()
        invariant
            i <= projects@.len(),
            forall|j: int| 0 <= j < i ==> projects@[j].treasury@ != addr@,
        decreases projects@.len() - i,
    {
        if bytes_eq(&projects[i].treasury, addr) {
            return true;
        }
        i = i + 1;
    }
    false
}

impl Ledger {
    /// Every recorded project is well formed under this program id.
    pub open spec fn projects_wf(self) -> bool {
        forall|i: int|
            0 <= i < self.projects@.len() ==> project_wf(
                #[trigger] self.projects@[i],
                self.program_id@,
            )
    }

    /// Distinct projects sit at distinct addresses with distinct treasuries.
    pub open spec fn projects_distinct(self) -> bool {
        forall|i: int, j: int|
            0 <= i < j < self.projects@.len() ==> {
                &&& (#[trigger] self.projects@[i]).address@ != (#[trigger] self.projects@[j]).address@
                &&& self.projects@[i].treasury@ != self.projects@[j].treasury@
            }
    }

    /// The lock-step invariant: every project's recorded total equals the
    /// balance its treasury actually holds.
    pub open spec fn lock_step(self) -> bool {
        forall|i: int|
            0 <= i < self.projects@.len() ==> (#[trigger] self.projects@[i]).total_donation
                == bal_of(self.lamports@, self.projects@[i].treasury@)
    }

    /// Well-formedness of the whole ledger.
    pub open spec fn wf(self) -> bool {
        &&& self.program_id@.len() == 32
        &&& (self.platform matches Some(c) ==> config_wf(c, self.program_id@))
        &&& (self.projects@.len() > 0 ==> self.platform is Some)
        &&& self.projects_wf()
        &&& self.projects_distinct()
        &&& self.lock_step()
    }

    /// A fresh deployment: no platform, no projects, empty stores.
    pub fn new(program_id: Vec<u8>) -> (r: Ledger)
        requires
            program_id@.len() == 32,
        ensures
            r.wf(),
            r.program_id@ == program_id@,
            r.platform is None,
            r.projects@.len() == 0,
            forall|b: Seq<u8>| bal_of(#[trigger] r.lamports@, b) == 0,
            forall|b: Seq<u8>| bal_of(#[trigger] r.wild@, b) == 0,
    {
        Ledger {
            program_id,
            platform: None,
            projects: Vec::new(),
            lamports: Vec::new(),
            wild: Vec::new(),
        }
    }
}

/// The outcome `init` owes for a given state and platform name.
pub open spec fn init_check(l: Ledger, name: Seq<u8>) -> Result<(), ConfigError> {
    if !(1 <= name.len() <= 32) {
        Err(ConfigError::NameTooLong)
    } else if l.platform is Some {
        Err(ConfigError::AlreadyInitialized)
    } else if derived_address(platform_seeds(name), l.program_id@) is None {
        Err(ConfigError::DerivationExhausted)
    } else {
        Ok(())
    }
}

impl Ledger {
    /// Initialize the platform: record the admin, the platform name and the
    /// reward mint the platform is henceforth the minting authority of, at
    /// the address derived from the name.  Fails when a platform already
    /// exists, when the name length is illegal, or when no derivation
    /// exists; nothing changes on failure.
    pub fn init(&mut self, admin: Vec<u8>, name: Vec<u8>, wild_token_mint: Vec<u8>) -> (r: Result<
        (),
        ConfigError,
    >)
        requires
            old(self).wf(),
        ensures
            final(self).wf(),
            final(self).program_id@ == old(self).program_id@,
            final(self).projects@ == old(self).projects@,
            final(self).lamports@ == old(self).lamports@,
            final(self).wild@ == old(self).wild@,
            r == init_check(*old(self), name@),
            r is Err ==> final(self).platform == old(self).platform,
            (r is Ok ==> (final(self).platform matches Some(c) && {
                &&& c.admin@ == admin@
                &&& c.name@ == name@
                &&& c.wild_token_mint@ == wild_token_mint@
                &&& derived_address(platform_seeds(name@), old(self).program_id@) == Some(
                    (c.address@, c.bump),
                )
            })),
    {
        if name.len() == 0 || name.len() > 32 {
            return Err(ConfigError::NameTooLong);
        }
        if self.platform.is_some() {
            return Err(ConfigError::AlreadyInitialized);
        }
        match derive_platform_address(&self.program_id, &name) {
            None => Err(ConfigError::DerivationExhausted),
            Some((address, bump)) => {
                self.platform = Some(Config { admin, name, bump, wild_token_mint, address });
                Ok(())
            },
        }
    }
}

/// The outcome `create_project` owes for a given state and project name.
/// Collisions are detected at the address layer: creation is refused when an
/// account already sits at the derived project address, or when the derived
/// treasury address is already an escrow or already holds value.
pub open spec fn create_check(l: Ledger, name: Seq<u8>) -> Result<(), DonationProjectError> {
    if !(1 <= name.len() <= 32) {
        Err(DonationProjectError::NameTooLong)
    } else if l.platform is None {
        Err(DonationProjectError::PlatformNotInitialized)
    } else {
        match derived_address(project_seeds(name), l.program_id@) {
            None => Err(DonationProjectError::DerivationExhausted),
            Some(ab) => {
                if is_project_address(l.projects@, ab.0) {
                    Err(DonationProjectError::ProjectAlreadyExists)
                } else {
                    match derived_address(treasury_seeds(ab.0), l.program_id@) {
                        None => Err(DonationProjectError::DerivationExhausted),
                        Some(tb) => {
                            if is_escrow(l.projects@, tb.0) || bal_of(l.lamports@, tb.0) != 0 {
                                Err(DonationProjectError::ProjectAlreadyExists)
                            } else {
                                Ok(())
                            }
                        },
                    }
                }
            },
        }
    }
}

/// Name uniqueness: once a project carries a name, `create_project` refuses
/// that name, whoever calls and whatever the other fields — the repeated
/// name derives the same address, and the address is taken.
pub proof fn lemma_duplicate_name_rejected(l: Ledger, name: Seq<u8>)
    requires
        l.wf(),
        has_project(l.projects@, name),
    ensures
        create_check(l, name) == Err::<(), DonationProjectError>(
            DonationProjectError::ProjectAlreadyExists,
        ),
{
    let i = choose|i: int| 0 <= i < l.projects@.len() && l.projects@[i].name@ == name;
    assert(project_wf(l.projects@[i], l.program_id@));
}

impl Ledger {
    /// Record a new project under `creator`, with `total_donation` zero and
    /// the derived project and treasury addresses with their bumps.  Any
    /// signer may create a project; names are globally unique because the
    /// project address is derived from the name alone.  Nothing changes on
    /// failure.
    pub fn create_project(
        &mut self,
        creator: Vec<u8>,
        name: Vec<u8>,
        description: Vec<u8>,
        location: Vec<u8>,
        target_amount: u64,
        target_animal: Vec<u8>,
    ) -> (r: Result<(), DonationProjectError>)
        requires
            old(self).wf(),
        ensures
            final(self).wf(),
            final(self).program_id@ == old(self).program_id@,
            final(self).platform == old(self).platform,
            final(self).lamports@ == old(self).lamports@,
            final(self).wild@ == old(self).wild@,
            r == create_check(*old(self), name@),
            r is Err ==> final(self).projects@ == old(self).projects@,
            (r is Ok ==> {
                &&& final(self).projects@.len() == old(self).projects@.len() + 1
                &&& final(self).projects@ == old(self).projects@.push(
                    final(self).projects@.last(),
                )
                &&& ({
                    let p = final(self).projects@.last();
                    &&& p.creator@ == creator@
                    &&& p.name@ == name@
                    &&& p.description@ == description@
                    &&& p.location@ == location@
                    &&& p.target_amount == target_amount
                    &&& p.target_animal@ == target_animal@
                    &&& p.total_donation == 0
                    &&& derived_address(project_seeds(name@), old(self).program_id@) == Some(
                        (p.address@, p.project_bump),
                    )
                    &&& derived_address(treasury_seeds(p.address@), old(self).program_id@)
                        == Some((p.treasury@, p.treasury_bump))
                })
            }),
            has_project(old(self).projects@, name@) ==> r == Err::<(), DonationProjectError>(
                DonationProjectError::ProjectAlreadyExists,
            ),
    {
        proof {
            if has_project(old(self).projects@, name@) {
                lemma_duplicate_name_rejected(*old(self), name@);
            }
        }
        if name.len() == 0 || name.len() > 32 {
            return Err(DonationProjectError::NameTooLong);
        }
        if self.platform.is_none() {
            return Err(DonationProjectError::PlatformNotInitialized);
        }
        let derived = derive_project_address(&self.program_id, &name);
        let (address, project_bump) = match derived {
            None => {
                return Err(DonationProjectError::DerivationExhausted);
            },
            Some(p) => p,
        };
        if address_taken(&self.projects, &address) {
            return Err(DonationProjectError::ProjectAlreadyExists);
        }
        let derived_tre = derive_treasury_address(&self.program_id, &address);
        let (treasury, treasury_bump) = match derived_tre {
            None => {
                return Err(DonationProjectError::DerivationExhausted);
            },
            Some(p) => p,
        };
        if escrow_taken(&self.projects, &treasury) {
            return Err(DonationProjectError::ProjectAlreadyExists);
        }
        if balance_in(&self.lamports, &treasury) != 0 {
            return Err(DonationProjectError::ProjectAlreadyExists);
        }
        let p = DonationProject {
            creator,
            name,
            description,
            location,
            target_amount,
            target_animal,
            total_donation: 0,
            address,
            project_bump,
            treasury,
            treasury_bump,
        };
        self.projects.push(p);
        Ok(())
    }
}

/// The outcome `donate` owes for a given state, contributor, project name,
/// presented mint and amount, with the checks in the order the engine makes
/// them.
pub open spec fn donate_check(
    l: Ledger,
    donor: Seq<u8>,
    name: Seq<u8>,
    mint: Seq<u8>,
    amount: u64,
) -> Result<(), DonationError> {
    if amount == 0 {
        Err(DonationError::InvalidDonationAmount)
    } else if project_index(l.projects@, name) == -1 {
        Err(DonationError::ProjectNotFound)
    } else if l.platform is None {
        Err(DonationError::PlatformNotInitialized)
    } else if is_escrow(l.projects@, donor) {
        Err(DonationError::EscrowAuthorityRequired)
    } else if amount * EXCHANGE_RATE > u64::MAX {
        Err(DonationError::Overflow)
    } else if l.projects@[project_index(l.projects@, name)].total_donation + amount > u64::MAX {
        Err(DonationError::Overflow)
    } else if amount > bal_of(l.lamports@, donor) {
        Err(DonationError::InsufficientBalance)
    } else if mint != platform_mint(l) {
        Err(DonationError::MintUnauthorized)
    } else if bal_of(l.wild@, donor) + amount * EXCHANGE_RATE > u64::MAX {
        Err(DonationError::Overflow)
    } else {
        Ok(())
    }
}

impl Ledger {
    /// The mint step of a contribution: present the platform's derivation
    /// proof as the minting authority — never a private key — and, when the
    /// presented mint really is the one the platform issues, credit the
    /// reward tokens.  Nothing changes on failure.
    fn mint_wild(&mut self, to: &Vec<u8>, mint: &Vec<u8>, amount: u64) -> (r: Result<
        (),
        DonationError,
    >)
        requires
            old(self).program_id@.len() == 32,
            (old(self).platform matches Some(c) && config_wf(c, old(self).program_id@)),
        ensures
            final(self).program_id@ == old(self).program_id@,
            final(self).platform == old(self).platform,
            final(self).projects@ == old(self).projects@,
            final(self).lamports@ == old(self).lamports@,
            (r is Ok <==> (mint@ == platform_mint(*old(self)) && bal_of(old(self).wild@, to@)
                + amount <= u64::MAX)),
            (mint@ != platform_mint(*old(self)) ==> r == Err::<(), DonationError>(
                DonationError::MintUnauthorized,
            )),
            ((mint@ == platform_mint(*old(self)) && bal_of(old(self).wild@, to@) + amount
                > u64::MAX) ==> r == Err::<(), DonationError>(DonationError::Overflow)),
            r is Err ==> final(self).wild@ == old(self).wild@,
            (r is Ok ==> {
                &&& bal_of(final(self).wild@, to@) == bal_of(old(self).wild@, to@) + amount
                &&& (forall|b: Seq<u8>|
                    b != to@ ==> bal_of(final(self).wild@, b) == bal_of(old(self).wild@, b))
            }),
    {
        let authorized = match &self.platform {
            Some(c) => verify_platform_derivation(&self.program_id, &c.name, c.bump, &c.address),
            None => false,
        };
        if !authorized {
            return Err(DonationError::MintUnauthorized);
        }
        let mint_ok = match &self.platform {
            Some(c) => bytes_eq(&c.wild_token_mint, mint),
            None => false,
        };
        if !mint_ok {
            return Err(DonationError::MintUnauthorized);
        }
        if !credit(&mut self.wild, to, amount) {
            return Err(DonationError::Overflow);
        }
        Ok(())
    }

    /// Contribute `amount` base currency to the named project: move the
    /// value from the contributor into the project's treasury, mint reward
    /// tokens to the contributor at `EXCHANGE_RATE`, and raise the project's
    /// running total by exactly the contributed amount.  The two steps are
    /// atomic: when the mint step fails, the already-made value transfer is
    /// rolled back, so an error leaves every balance and every record as it
    /// was.
    pub fn donate(
        &mut self,
        donor: Vec<u8>,
        project_name: &Vec<u8>,
        wild_token_mint: &Vec<u8>,
        amount: u64,
    ) -> (r: Result<Donation, DonationError>)
        requires
            old(self).wf(),
        ensures
            final(self).wf(),
            final(self).program_id@ == old(self).program_id@,
            final(self).platform == old(self).platform,
            (donate_check(*old(self), donor@, project_name@, wild_token_mint@, amount) matches Err(e)
                ==> {
                &&& r == Err::<Donation, DonationError>(e)
                &&& final(self).projects@ == old(self).projects@
                &&& (forall|b: Seq<u8>|
                    bal_of(final(self).lamports@, b) == bal_of(old(self).lamports@, b))
                &&& (forall|b: Seq<u8>| bal_of(final(self).wild@, b) == bal_of(old(self).wild@, b))
            }),
            (donate_check(*old(self), donor@, project_name@, wild_token_mint@, amount) is Ok ==> {
                let i = project_index(old(self).projects@, project_name@);
                let tre = old(self).projects@[i].treasury@;
                &&& (r matches Ok(d) && d.donor@ == donor@ && d.amount == amount && d.minted
                    == amount * EXCHANGE_RATE)
                &&& final(self).projects@ == old(self).projects@.update(
                    i,
                    with_total(
                        old(self).projects@[i],
                        (old(self).projects@[i].total_donation + amount) as u64,
                    ),
                )
                &&& bal_of(final(self).lamports@, donor@) == bal_of(old(self).lamports@, donor@)
                    - amount
                &&& bal_of(final(self).lamports@, tre) == bal_of(old(self).lamports@, tre) + amount
                &&& (forall|b: Seq<u8>|
                    b != donor@ && b != tre ==> bal_of(final(self).lamports@, b) == bal_of(
                        old(self).lamports@,
                        b,
                    ))
                &&& bal_of(final(self).wild@, donor@) == bal_of(old(self).wild@, donor@) + amount
                    * EXCHANGE_RATE
                &&& (forall|b: Seq<u8>|
                    b != donor@ ==> bal_of(final(self).wild@, b) == bal_of(old(self).wild@, b))
            }),
    {
        if amount == 0 {
            return Err(DonationError::InvalidDonationAmount);
        }
        let idx: usize = match find_project(&self.projects, project_name) {
            None => {
                return Err(DonationError::ProjectNotFound);
            },
            Some(i) => i,
        };
        if self.platform.is_none() {
            return Err(DonationError::PlatformNotInitialized);
        }
        if escrow_taken(&self.projects, &donor) {
            return Err(DonationError::EscrowAuthorityRequired);
        }
        if amount > u64::MAX / EXCHANGE_RATE {
            return Err(DonationError::Overflow);
        }
        let wild_amount: u64 = amount * EXCHANGE_RATE;
        let total: u64 = self.projects[idx].total_donation;
        if total > u64::MAX - amount {
            return Err(DonationError::Overflow);
        }
        let treasury: Vec<u8> = clone_bytes(&self.projects[idx].treasury);
        let ghost lam0 = self.lamports@;
        if !debit(&mut self.lamports, &donor, amount) {
            return Err(DonationError::InsufficientBalance);
        }
        let ghost lam1 = self.lamports@;
        proof {
            assert(is_escrow(old(self).projects@, treasury@));
            assert(bal_of(lam1, treasury@) == bal_of(lam0, treasury@));
        }
        let credited = credit(&mut self.lamports, &treasury, amount);
        proof {
            assert(credited);
        }
        let ghost lam2 = self.lamports@;
        match self.mint_wild(&donor, wild_token_mint, wild_amount) {
            Err(e) => {
                let rolled_back = debit(&mut self.lamports, &treasury, amount);
                proof {
                    assert(rolled_back);
                }
                let restored = credit(&mut self.lamports, &donor, amount);
                proof {
                    assert(restored);
                    assert forall|b: Seq<u8>| bal_of(self.lamports@, b) == bal_of(lam0, b) by {
                        if b != donor@ && b != treasury@ {
                            assert(bal_of(lam1, b) == bal_of(lam0, b));
                            assert(bal_of(lam2, b) == bal_of(lam1, b));
                        }
                    }
                }
                return Err(e);
            },
            Ok(_) => {},
        }
        let e = self.projects.remove(idx);
        let updated = DonationProject { total_donation: total + amount, ..e };
        self.projects.insert(idx, updated);
        proof {
            assert(self.projects@ =~= old(self).projects@.update(idx as int, updated));
            assert forall|b: Seq<u8>|
                b != donor@ && b != treasury@ implies bal_of(self.lamports@, b) == bal_of(
                lam0,
                b,
            ) by {
                assert(bal_of(lam1, b) == bal_of(lam0, b));
                assert(bal_of(lam2, b) == bal_of(lam1, b));
            }
            assert forall|j: int|
                0 <= j < self.projects@.len() implies (#[trigger] self.projects@[j]).total_donation
                == bal_of(self.lamports@, self.projects@[j].treasury@) by {
                if j != idx as int {
                    assert(old(self).projects@[j].treasury@ != donor@);
                    if j < idx as int {
                        assert(old(self).projects@[j].treasury@ != old(self).projects@[
                        idx as int].treasury@);
                    }
                }
            }
        }
        Ok(Donation { donor, amount, minted: wild_amount })
    }
}

/// The outcome `withdraw` owes for a given state, caller, project name and
/// amount, with the checks in the order the guard makes them.
pub open spec fn withdraw_check(
    l: Ledger,
    caller: Seq<u8>,
    name: Seq<u8>,
    amount: u64,
) -> Result<(), DonationProjectError> {
    if project_index(l.projects@, name) == -1 {
        Err(DonationProjectError::ProjectNotFound)
    } else {
        let p = l.projects@[project_index(l.projects@, name)];
        if caller != p.creator@ {
            Err(DonationProjectError::UnauthorizedWithdrawal)
        } else if is_escrow(l.projects@, caller) {
            Err(DonationProjectError::UnauthorizedWithdrawal)
        } else if amount > p.total_donation {
            Err(DonationProjectError::InsufficientFunds)
        } else if bal_of(l.lamports@, caller) + amount > u64::MAX {
            Err(DonationProjectError::Overflow)
        } else {
            Ok(())
        }
    }
}

/// Authorization: a withdrawal whose caller is not the project's creator is
/// refused, whatever the amount — zero and amounts beyond the balance
/// included.
pub proof fn lemma_withdraw_requires_creator(l: Ledger, caller: Seq<u8>, name: Seq<u8>, amount: u64)
    requires
        project_index(l.projects@, name) != -1,
        caller != l.projects@[project_index(l.projects@, name)].creator@,
    ensures
        withdraw_check(l, caller, name, amount) == Err::<(), DonationProjectError>(
            DonationProjectError::UnauthorizedWithdrawal,
        ),
{
}

impl Ledger {
    /// Withdraw `amount` base currency from the named project's treasury to
    /// the caller.  Only the project's creator may withdraw, the amount must
    /// not exceed the recorded total, and the escrow moves the value by its
    /// derivation proof — it has no signing key of its own.  Nothing changes
    /// on failure.
    pub fn withdraw(&mut self, caller: &Vec<u8>, project_name: &Vec<u8>, amount: u64) -> (r: Result<
        (),
        DonationProjectError,
    >)
        requires
            old(self).wf(),
        ensures
            final(self).wf(),
            final(self).program_id@ == old(self).program_id@,
            final(self).platform == old(self).platform,
            final(self).wild@ == old(self).wild@,
            r == withdraw_check(*old(self), caller@, project_name@, amount),
            (r is Err ==> {
                &&& final(self).projects@ == old(self).projects@
                &&& final(self).lamports@ == old(self).lamports@
            }),
            (r is Ok ==> {
                let i = project_index(old(self).projects@, project_name@);
                let tre = old(self).projects@[i].treasury@;
                &&& final(self).projects@ == old(self).projects@.update(
                    i,
                    with_total(
                        old(self).projects@[i],
                        (old(self).projects@[i].total_donation - amount) as u64,
                    ),
                )
                &&& bal_of(final(self).lamports@, tre) == bal_of(old(self).lamports@, tre) - amount
                &&& bal_of(final(self).lamports@, caller@) == bal_of(old(self).lamports@, caller@)
                    + amount
                &&& (forall|b: Seq<u8>|
                    b != caller@ && b != tre ==> bal_of(final(self).lamports@, b) == bal_of(
                        old(self).lamports@,
                        b,
                    ))
            }),
    {
        let idx: usize = match find_project(&self.projects, project_name) {
            None => {
                return Err(DonationProjectError::ProjectNotFound);
            },
            Some(i) => i,
        };
        if !bytes_eq(caller, &self.projects[idx].creator) {
            return Err(DonationProjectError::UnauthorizedWithdrawal);
        }
        if escrow_taken(&self.projects, caller) {
            return Err(DonationProjectError::UnauthorizedWithdrawal);
        }
        let total: u64 = self.projects[idx].total_donation;
        if amount > total {
            return Err(DonationProjectError::InsufficientFunds);
        }
        let caller_balance: u64 = balance_in(&self.lamports, caller);
        if caller_balance > u64::MAX - amount {
            return Err(DonationProjectError::Overflow);
        }
        // the escrow authorizes the debit by its derivation proof
        let proof_ok = verify_treasury_derivation(
            &self.program_id,
            &self.projects[idx].address,
            self.projects[idx].treasury_bump,
            &self.projects[idx].treasury,
        );
        if !proof_ok {
            return Err(DonationProjectError::UnauthorizedWithdrawal);
        }
        let treasury: Vec<u8> = clone_bytes(&self.projects[idx].treasury);
        let ghost lam0 = self.lamports@;
        let debited = debit(&mut self.lamports, &treasury, amount);
        proof {
            assert(debited);
        }
        let ghost lam1 = self.lamports@;
        let credited = credit(&mut self.lamports, caller, amount);
        proof {
            assert(is_escrow(old(self).projects@, treasury@));
            assert(caller@ != treasury@);
            assert(credited);
        }
        let e = self.projects.remove(idx);
        let updated = DonationProject { total_donation: total - amount, ..e };
        self.projects.insert(idx, updated);
        proof {
            assert(self.projects@ =~= old(self).projects@.update(idx as int, updated));
            assert forall|b: Seq<u8>|
                b != caller@ && b != treasury@ implies bal_of(self.lamports@, b) == bal_of(
                lam0,
                b,
            ) by {
                assert(bal_of(lam1, b) == bal_of(lam0, b));
            }
            assert forall|j: int|
                0 <= j < self.projects@.len() implies (#[trigger] self.projects@[j]).total_donation
                == bal_of(self.lamports@, self.projects@[j].treasury@) by {
                if j != idx as int {
                    assert(old(self).projects@[j].treasury@ != caller@);
                    if j < idx as int {
                        assert(old(self).projects@[j].treasury@ != old(self).projects@[
                        idx as int].treasury@);
                    }
                }
            }
        }
        Ok(())
    }
}

/// The outcome `deposit` owes: escrows cannot be funded directly, and a
/// balance never wraps.
pub open spec fn deposit_check(l: Ledger, to: Seq<u8>, amount: u64) -> Result<(), DonationError> {
    if is_escrow(l.projects@, to) {
        Err(DonationError::EscrowAuthorityRequired)
    } else if bal_of(l.lamports@, to) + amount > u64::MAX {
        Err(DonationError::Overflow)
    } else {
        Ok(())
    }
}

impl Ledger {
    /// Fund an ordinary account with base currency.  A project's escrow
    /// cannot be funded this way: value enters an escrow only through
    /// `donate`, which keeps the recorded totals in lock-step with the held
    /// balances.  Nothing changes on failure.
    pub fn deposit(&mut self, to: &Vec<u8>, amount: u64) -> (r: Result<(), DonationError>)
        requires
            old(self).wf(),
        ensures
            final(self).wf(),
            final(self).program_id@ == old(self).program_id@,
            final(self).platform == old(self).platform,
            final(self).projects@ == old(self).projects@,
            final(self).wild@ == old(self).wild@,
            r == deposit_check(*old(self), to@, amount),
            r is Err ==> final(self).lamports@ == old(self).lamports@,
            (r is Ok ==> {
                &&& bal_of(final(self).lamports@, to@) == bal_of(old(self).lamports@, to@) + amount
                &&& (forall|b: Seq<u8>|
                    b != to@ ==> bal_of(final(self).lamports@, b) == bal_of(old(self).lamports@, b))
            }),
    {
        if escrow_taken(&self.projects, to) {
            return Err(DonationError::EscrowAuthorityRequired);
        }
        if !credit(&mut self.lamports, to, amount) {
            return Err(DonationError::Overflow);
        }
        proof {
            assert forall|j: int|
                0 <= j < self.projects@.len() implies (#[trigger] self.projects@[j]).total_donation
                == bal_of(self.lamports@, self.projects@[j].treasury@) by {
                assert(old(self).projects@[j].treasury@ != to@);
            }
        }
        Ok(())
    }

    /// The reward-token balance of an account.
    pub fn balance_of(&self, owner: &Vec<u8>) -> (r: u64)
        ensures
            r == bal_of(self.wild@, owner@),
    {
        balance_in(&self.wild, owner)
    }

    /// The base-currency balance of an account.
    pub fn get_balance(&self, address: &Vec<u8>) -> (r: u64)
        ensures
            r == bal_of(self.lamports@, address@),
    {
        balance_in(&self.lamports, address)
    }

    /// The base-currency balance held by the named project's treasury, or
    /// None when no project carries the name.  Under well-formedness this is
    /// exactly the project's recorded total.
    pub fn total_balance(&self, project_name: &Vec<u8>) -> (r: Option<u64>)
        ensures
            project_index(self.projects@, project_name@) == -1 <==> r is None,
            (r matches Some(v) ==> v == bal_of(
                self.lamports@,
                self.projects@[project_index(self.projects@, project_name@)].treasury@,
            )),
            (self.wf() ==> (r matches Some(v) ==> v == self.projects@[project_index(
                self.projects@,
                project_name@,
            )].total_donation)),
    {
        match find_project(&self.projects, project_name) {
            None => None,
            Some(i) => Some(balance_in(&self.lamports, &self.projects[i].treasury)),
        }
    }
}

} // verus!
