//! Errors of circuit construction, proving and proof acceptance.
use vstd::prelude::*;

verus! {

/// What went wrong, by kind.
#[derive(Clone, Copy, Debug, PartialEq, Eq, Structural)]
pub enum IvcError {
    /// A circuit or proof shape differs from the expected descriptor.
    ShapeMismatch,
    /// A witness assignment cannot satisfy the step circuit's constraints.
    ConstraintUnsatisfied,
    /// The verifier-key commitment inside a proof is not the canonical one.
    VerifierDataMismatch,
    /// The descriptor fixed point was not reached within the round budget.
    StabilizationFailure,
    /// The verifier-key commitment was registered as public input a second time.
    VerifierKeyAlreadyRegistered,
    /// The proof does not verify against the canonical circuit.
    InvalidProof,
    /// The chain's step index cannot grow any further.
    ChainExhausted,
}

/// A failed chain step: its index and the check that failed.
#[derive(Clone, Copy, Debug, PartialEq, Eq, Structural)]
pub struct StepFailure {
    pub step: u64,
    pub error: IvcError,
}

} // verus!
