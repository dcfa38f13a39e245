//! A custodial fundraising ledger.
//!
//! A platform operator registers a reward token; anyone may then create a
//! named fundraising project with a dedicated escrow account; contributors
//! move base-currency value into that escrow and receive reward-token credit
//! at a fixed exchange rate; only a project's creator may withdraw the
//! accumulated escrow value.
//!
//! Escrow accounts are not addressable by a private key: their addresses are
//! derived deterministically from a namespace tag and their parent's
//! identity, and authority over them is shown by recomputing the derivation
//! rather than by a signature.  The central invariant is that every project's
//! recorded running total and the balance actually held by its escrow never
//! diverge.

pub mod derivation;
pub mod errors;
pub mod laws;
pub mod ledger;
pub mod state;
pub mod store;
