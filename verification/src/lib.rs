//! Protocol parameters and proof inputs for a STARK prover.
//!
//! The crate derives the FRI folding schedule that a prover and a verifier
//! must agree on, and turns the outcome of a finished machine run into the
//! byte streams and records that the prover reads.

pub mod artifacts;
pub mod fri;
pub mod models;
pub mod run;
pub mod tasks;
pub mod verifier_cli;
