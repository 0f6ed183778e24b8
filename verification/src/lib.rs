//! Anonymous voting eligibility proofs over a census of public keys.
//!
//! A voter shows, without revealing which census entry is theirs, that they
//! hold the secret key behind one of the public keys committed to by a Merkle
//! tree, and publishes a nullifier bound to that key and to one election.
//! The commitment hash and the proof engine are capabilities handed in by the
//! caller; everything this crate decides about them is stated over their own
//! contracts.

pub mod field;
pub mod hash;
pub mod merkle;
pub mod census;
pub mod circuit;
pub mod witness;
pub mod semantics;
pub mod innerproof;
pub mod statement;
pub mod outerproof;
pub mod voter;
pub mod guarantees;
