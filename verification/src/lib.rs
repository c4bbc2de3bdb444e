//! Core of a privacy-preserving token vault.
//!
//! Users deposit fungible tokens together with a 32-byte cryptographic
//! commitment; any holder of the secret behind a commitment may later
//! withdraw to an arbitrary recipient by presenting a zero-knowledge proof.
//! This crate holds the protocol state machine that makes that safe:
//! commitment admission into an append-only accumulator, proof-gated
//! withdrawal, double-spend prevention via a nullifier ledger, and
//! governance of a bounded relayer allow-list.
//!
//! The host ledger (custody transfers, account authentication) and the
//! zero-knowledge verifier are external collaborators: the vault hands the
//! host explicit instructions and consumes the outcomes it reports back.

use vstd::prelude::*;

pub mod accumulator;
pub mod errors;
pub mod events;
pub mod keys;
pub mod laws;
pub mod nullifiers;
pub mod state;

verus! {

/// Capacity bound on the relayer allow-list.
pub const MAX_RELAYERS: usize = 10;

/// Number of public inputs a withdrawal proof is checked against:
/// root, nullifier hash, recipient, amount, external nullifier.
pub const REQUIRED_PUBLIC_INPUTS_COUNT: usize = 5;

} // verus!
