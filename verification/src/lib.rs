//! A verified model of a minimal single-depositor escrow vault on an
//! account-based ledger.
//!
//! Any participant may deposit native currency into a vault account whose
//! address is derived from the participant's own address, and later withdraw
//! the full balance. The derivation of the vault address doubles as the
//! authorization check: only the original depositor's signature, together
//! with the matching derivation, can move funds back out.

pub mod account;
pub mod derivation;
pub mod instructions;
pub mod laws;
pub mod transfer;
