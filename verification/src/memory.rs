//! Named-but-unimplemented neighboring subsystems.
//!
//! The substrate's entities reference these components (indexing,
//! graph memory, path optimization, compression), but their algorithms
//! live outside this crate; the types stand as forward declarations.

use vstd::prelude::*;

verus! {

/// Placeholder for the recursive polynomial index.
pub struct RecursivePolynomialIndex;

/// Placeholder for the probabilistic graph memory.
pub struct ProbabilisticGraphMemory;

/// Placeholder for the Bellman path optimizer.
pub struct BellmanOptimizer;

/// Placeholder for the Kolmogorov compression engine.
pub struct KolmogorovCompressionEngine;

} // verus!
