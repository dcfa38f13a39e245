use vstd::prelude::*;

verus! {

/// Errors of platform initialization.
#[derive(Clone, Copy, Debug, PartialEq, Eq, Structural)]
pub enum ConfigError {
    /// The platform name is empty or longer than 32 bytes.
    NameTooLong,
    /// A platform configuration already exists for this deployment.
    AlreadyInitialized,
    /// The bounded search found no valid derivation for the given seeds.
    DerivationExhausted,
}

/// Errors of project creation and withdrawal.
#[derive(Clone, Copy, Debug, PartialEq, Eq, Structural)]
pub enum DonationProjectError {
    /// The caller of a withdrawal is not the project's creator, or is not a
    /// key-holding account at all.
    UnauthorizedWithdrawal,
    /// A withdrawal asks for more than the project's recorded total.
    InsufficientFunds,
    /// No project is recorded under the given name.
    ProjectNotFound,
    /// An account already exists at the address derived for the project or
    /// for its escrow.
    ProjectAlreadyExists,
    /// The project name is empty or longer than 32 bytes.
    NameTooLong,
    /// The platform configuration has not been initialized yet.
    PlatformNotInitialized,
    /// The bounded search found no valid derivation for the given seeds.
    DerivationExhausted,
    /// A checked addition on a balance would wrap.
    Overflow,
}

/// Errors of contributing and of funding an account.
#[derive(Clone, Copy, Debug, PartialEq, Eq, Structural)]
pub enum DonationError {
    /// The contributed amount is zero.
    InvalidDonationAmount,
    /// No project is recorded under the given name.
    ProjectNotFound,
    /// The platform configuration has not been initialized yet.
    PlatformNotInitialized,
    /// The contributor holds less base currency than the contribution.
    InsufficientBalance,
    /// The reward mint presented to the mint step is not the one whose
    /// authority the platform holds: the mint primitive reports failure.
    MintUnauthorized,
    /// An escrow account can take part in a transfer only through its
    /// derivation proof, never as an ordinary signer or target.
    EscrowAuthorityRequired,
    /// A checked addition or multiplication would wrap.
    Overflow,
}

} // verus!
