//! Zero-knowledge proof library for Poseidon hash-preimage commitments.
//!
//! A prover holding a secret field element can publish a commitment (the
//! Poseidon permutation hash of the secret) and later prove, without
//! revealing the secret, that the committed value is the hash of a value
//! it knows.  The library covers commitment evaluation, parameter-set
//! loading and trimming, key derivation and proof construction; all
//! control logic is verified, and every call into the proof-system crates
//! stands behind a trusted item whose contract records what is relied on.
//!
//! The arithmetic backend is the Pasta-curve halo2 line: field elements
//! live in the Pasta base field `Fp` (the proof curve's scalar field)
//! and polynomial commitments use its inner-product argument, whose
//! parameter synthesis is deterministic in the degree exponent.

pub mod capacity;
pub mod commitment;
pub mod encoding;
pub mod error;
pub mod field;
pub mod keys;
pub mod params;
pub mod poseidon;
pub mod prover;
