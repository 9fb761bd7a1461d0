//! In-memory data model for an adaptive entity/edge storage substrate.
//!
//! An entity bundles a vector embedding, free-form metadata and a set of
//! probabilistic relationships (edges) to other entities, and migrates
//! between storage tiers (hot/warm/cold) based on observed access patterns.
//!
//! All continuous quantities (probabilities, learning rates, access
//! frequencies, vector norms) are kept in fixed-point form: an integer
//! number of millionths, so that every update rule is exact integer
//! arithmetic with a machine-checked contract.

pub mod edges;
pub mod entity;
pub mod error;
pub mod fixed;
pub mod memory;
pub mod metadata;
pub mod records;
pub mod time;
pub mod types;
pub mod vector;

pub use edges::Edge;
pub use entity::{AccessStatistics, Entity, MemoryTier};
pub use error::MemorySubstrateError;
pub use fixed::SCALE;
pub use memory::{BellmanOptimizer, KolmogorovCompressionEngine, ProbabilisticGraphMemory, RecursivePolynomialIndex};
pub use records::{EdgeRecord, EntityRecord};
pub use time::current_timestamp_ms;
pub use types::{ClusterId, EntityId, NodeId, ShardId};
pub use vector::Vector;
