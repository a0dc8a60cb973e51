//! Cyclic recursive proof composition for incremental verifiable computation.
//!
//! The library fixes the public-input layout of a self-verifying step circuit,
//! finds the circuit shape that is a fixed point of "the circuit that verifies
//! a proof of this shape", checks produced proofs against the canonical
//! verifier key, and drives the chain of proofs step by step.
pub mod field;
pub mod error;
pub mod layout;
pub mod registry;
pub mod consistency;
pub mod step;
pub mod chain;
pub mod shape;
