//! Error kinds for the memory substrate.

use vstd::prelude::*;

verus! {

/// Error kinds raised by the core data model.
///
/// Construction-time contract violations (an empty vector, a dimension
/// mismatch) are programmer errors and abort the operation by returning
/// `InvariantViolation`; numeric edge cases (zero-norm similarity,
/// zero-elapsed-time frequency updates) are defined fallback values, not
/// errors. Each variant carries a human-readable description.
#[derive(Debug)]
pub enum MemorySubstrateError {
    /// Polynomial evaluation failed.
    PolynomialError(String),
    /// Probabilistic graph operation failed.
    GraphError(String),
    /// Compression failed.
    CompressionError(String),
    /// Consensus not achieved.
    ConsensusError(String),
    /// Tier operation failed.
    TierError(String),
    /// Learning algorithm failed.
    LearningError(String),
    /// Concurrency conflict.
    ConcurrencyError(String),
    /// Mathematical invariant violated.
    InvariantViolation(String),
}

impl MemorySubstrateError {
    /// The description carried by the error.
    pub fn message(&self) -> (r: &String)
        ensures
            r@ == self.message_spec(),
    {
        match self {
            MemorySubstrateError::PolynomialError(s) => s,
            MemorySubstrateError::GraphError(s) => s,
            MemorySubstrateError::CompressionError(s) => s,
            MemorySubstrateError::ConsensusError(s) => s,
            MemorySubstrateError::TierError(s) => s,
            MemorySubstrateError::LearningError(s) => s,
            MemorySubstrateError::ConcurrencyError(s) => s,
            MemorySubstrateError::InvariantViolation(s) => s,
        }
    }

    /// The description as a sequence of characters.
    pub open spec fn message_spec(&self) -> Seq<char> {
        match self {
            MemorySubstrateError::PolynomialError(s) => s@,
            MemorySubstrateError::GraphError(s) => s@,
            MemorySubstrateError::CompressionError(s) => s@,
            MemorySubstrateError::ConsensusError(s) => s@,
            MemorySubstrateError::TierError(s) => s@,
            MemorySubstrateError::LearningError(s) => s@,
            MemorySubstrateError::ConcurrencyError(s) => s@,
            MemorySubstrateError::InvariantViolation(s) => s@,
        }
    }

    /// True exactly for the `InvariantViolation` kind.
    pub fn is_invariant_violation(&self) -> (r: bool)
        ensures
            r == self is InvariantViolation,
    {
        match self {
            MemorySubstrateError::InvariantViolation(_) => true,
            _ => false,
        }
    }
}

} // verus!
