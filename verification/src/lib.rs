//! A mental poker protocol engine: mutually distrusting players jointly
//! shuffle and deal a masked deck of cards with no trusted dealer.
//!
//! The cryptographic work — Schnorr ownership proofs, ElGamal-style masking,
//! Bayer–Groth shuffle arguments and threshold reveal — is done by the
//! `ziffle` crate behind a small set of trusted declarations. This crate
//! verifies the protocol discipline around those calls: only values that have
//! passed their proof check feed later steps, aggregation rejects empty input,
//! deck lookups are bounds-checked, every error case is accounted for, and the
//! transport encoding round-trips.

use vstd::prelude::*;

pub mod api;
pub mod arena;
pub mod bridge;
pub mod codec;
pub mod errors;

verus! {

/// Number of cards in a masked deck: two full card sets.
pub const DECK_SIZE: usize = 136;

} // verus!
