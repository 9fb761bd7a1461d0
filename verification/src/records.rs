//! The serialization boundary: plain structured records.
//!
//! Entities and edges cross into the persistence layer as records of
//! plain values: counters as plain numbers, optional fields carried as
//! options. Encoding and decoding are exact inverses, proved below; how
//! a record becomes bytes (JSON or otherwise) is the persistence
//! layer's business. The placeholder fields owned by the external
//! indexing and compression subsystems are not part of the record and
//! are reattached by those subsystems.

use crate::edges::Edge;
use crate::entity::{AccessStatistics, Entity, MemoryTier};
use crate::fixed::SCALE;
use crate::metadata::clone_metadata;
use crate::types::EntityId;
use crate::vector::Vector;
use vstd::prelude::*;

verus! {

/// An edge as plain values: the access bookkeeping materialized as
/// numbers.
pub struct EdgeRecord {
    /// Source entity.
    pub source_id: EntityId,
    /// Target entity.
    pub target_id: EntityId,
    /// Relationship type.
    pub label: String,
    /// Static initial weight, fixed-point in `SCALE` units.
    pub weight: u64,
    /// Optional free-form metadata.
    pub metadata: Option<serde_json::Value>,
    /// Learned probability, fixed-point in `SCALE` units.
    pub probability: u64,
    /// Access counter, as a plain number.
    pub access_count: u64,
    /// Last-access timestamp, milliseconds since the epoch.
    pub last_accessed: u64,
}

/// The record an edge encodes to.
pub open spec fn encode_edge_spec(e: Edge) -> EdgeRecord {
    EdgeRecord {
        source_id: e.source_id,
        target_id: e.target_id,
        label: e.label,
        weight: e.weight,
        metadata: e.metadata,
        probability: e.probability,
        access_count: e.access_count,
        last_accessed: e.last_accessed,
    }
}

/// The edge a record decodes to: the counter value rehydrates as a
/// fresh counter holding that number.
pub open spec fn decode_edge_spec(r: EdgeRecord) -> Edge {
    Edge {
        source_id: r.source_id,
        target_id: r.target_id,
        label: r.label,
        weight: r.weight,
        metadata: r.metadata,
        probability: r.probability,
        access_count: r.access_count,
        last_accessed: r.last_accessed,
    }
}

/// Round trip: encoding an edge and decoding the record back yields the
/// edge unchanged; in particular its identifiers, label, probability
/// and access-count value are preserved.
pub proof fn lemma_edge_record_round_trip(e: Edge)
    ensures
        decode_edge_spec(encode_edge_spec(e)) == e,
{
}

/// Round trip in the other direction: a record survives decoding and
/// re-encoding unchanged.
pub proof fn lemma_edge_record_round_trip_back(r: EdgeRecord)
    ensures
        encode_edge_spec(decode_edge_spec(r)) == r,
{
}

/// A sequence of edges, each encoded to its record.
pub open spec fn encode_edges_spec(s: Seq<Edge>) -> Seq<EdgeRecord> {
    s.map_values(|e: Edge| encode_edge_spec(e))
}

/// A sequence of records, each decoded to its edge.
pub open spec fn decode_edges_spec(s: Seq<EdgeRecord>) -> Seq<Edge> {
    s.map_values(|r: EdgeRecord| decode_edge_spec(r))
}

/// Round trip over a whole edge sequence.
pub proof fn lemma_edges_round_trip(s: Seq<Edge>)
    ensures
        decode_edges_spec(encode_edges_spec(s)) == s,
{
    assert(decode_edges_spec(encode_edges_spec(s)) =~= s);
}

impl Edge {
    /// Encode the edge as a record of plain values; the edge itself is
    /// unchanged.
    pub fn to_record(&self) -> (r: EdgeRecord)
        ensures
            r == encode_edge_spec(*self),
    {
        EdgeRecord {
            source_id: self.source_id,
            target_id: self.target_id,
            label: self.label.clone(),
            weight: self.weight,
            metadata: clone_metadata(&self.metadata),
            probability: self.probability,
            access_count: self.access_count,
            last_accessed: self.last_accessed,
        }
    }

    /// Decode a record back into an edge, its counter rehydrated from
    /// the recorded number; the record itself is unchanged. A record
    /// whose ratios lie in the unit interval decodes to a well-formed
    /// edge.
    pub fn from_record(r: &EdgeRecord) -> (e: Edge)
        ensures
            e == decode_edge_spec(*r),
            r.probability <= SCALE && r.weight <= SCALE ==> e.wf(),
    {
        Edge {
            source_id: r.source_id,
            target_id: r.target_id,
            label: r.label.clone(),
            weight: r.weight,
            metadata: clone_metadata(&r.metadata),
            probability: r.probability,
            access_count: r.access_count,
            last_accessed: r.last_accessed,
        }
    }
}

/// An entity as plain values, its edges each encoded as a record.
pub struct EntityRecord {
    /// Unique identifier.
    pub id: EntityId,
    /// Optional vector embedding.
    pub vector: Option<Vector>,
    /// Optional free-form metadata.
    pub metadata: Option<serde_json::Value>,
    /// Optional edges, as records.
    pub edges: Option<Vec<EdgeRecord>>,
    /// Creation timestamp.
    pub created_at: u64,
    /// Last-update timestamp.
    pub updated_at: u64,
    /// Advisory version counter.
    pub version: u64,
    /// Storage tier.
    pub tier: MemoryTier,
    /// Rolling access statistics.
    pub access_statistics: AccessStatistics,
}

impl Entity {
    /// Encode the entity as a record of plain values; the entity itself
    /// is unchanged. Identifier, timestamps, version, tier, statistics,
    /// vector and metadata carry over; each edge becomes its record.
    pub fn to_record(&self) -> (r: EntityRecord)
        ensures
            r.id == self.id,
            r.metadata == self.metadata,
            r.created_at == self.created_at,
            r.updated_at == self.updated_at,
            r.version == self.version,
            r.tier == self.tier,
            r.access_statistics.total_accesses == self.access_statistics.total_accesses,
            r.access_statistics.last_access == self.access_statistics.last_access,
            r.access_statistics.access_frequency == self.access_statistics.access_frequency,
            r.access_statistics.co_access_entities@
                == self.access_statistics.co_access_entities@,
            r.vector is Some <==> self.vector is Some,
            self.vector is Some ==> {
                &&& r.vector->0.dimensions == self.vector->0.dimensions
                &&& r.vector->0.values@ == self.vector->0.values@
                &&& r.vector->0.norm == self.vector->0.norm
            },
            r.edges is Some <==> self.edges is Some,
            self.edges is Some ==> r.edges->0@ == encode_edges_spec(self.edges->0@),
    {
        let vector = match &self.vector {
            Some(v) => Some(v.snapshot()),
            None => None,
        };
        let edges = match &self.edges {
            Some(list) => {
                let mut out: Vec<EdgeRecord> = Vec::new();
                let mut i: usize = 0;
                while i < list.len()
                    invariant
                        i <= list@.len(),
                        out@.len() == i,
                        forall|j: int|
                            0 <= j < i ==> #[trigger] out@[j] == encode_edge_spec(list@[j]),
                    decreases list@.len() - i,
                {
                    out.push(list[i].to_record());
                    i = i + 1;
                }
                proof {
                    assert(out@ =~= encode_edges_spec(list@));
                }
                Some(out)
            },
            None => None,
        };
        EntityRecord {
            id: self.id,
            vector,
            metadata: clone_metadata(&self.metadata),
            edges,
            created_at: self.created_at,
            updated_at: self.updated_at,
            version: self.version,
            tier: self.tier,
            access_statistics: self.access_statistics.snapshot(),
        }
    }

    /// Decode a record back into an entity; the record itself is
    /// unchanged. The fields owned by the external indexing and
    /// compression subsystems rehydrate empty.
    pub fn from_record(r: &EntityRecord) -> (e: Entity)
        ensures
            e.id == r.id,
            e.metadata == r.metadata,
            e.created_at == r.created_at,
            e.updated_at == r.updated_at,
            e.version == r.version,
            e.tier == r.tier,
            e.access_statistics.total_accesses == r.access_statistics.total_accesses,
            e.access_statistics.last_access == r.access_statistics.last_access,
            e.access_statistics.access_frequency == r.access_statistics.access_frequency,
            e.access_statistics.co_access_entities@
                == r.access_statistics.co_access_entities@,
            e.vector is Some <==> r.vector is Some,
            r.vector is Some ==> {
                &&& e.vector->0.dimensions == r.vector->0.dimensions
                &&& e.vector->0.values@ == r.vector->0.values@
                &&& e.vector->0.norm == r.vector->0.norm
            },
            e.edges is Some <==> r.edges is Some,
            r.edges is Some ==> e.edges->0@ == decode_edges_spec(r.edges->0@),
            e.polynomial_embedding is None,
            e.compression_metadata is None,
    {
        let vector = match &r.vector {
            Some(v) => Some(v.snapshot()),
            None => None,
        };
        let edges = match &r.edges {
            Some(list) => {
                let mut out: Vec<Edge> = Vec::new();
                let mut i: usize = 0;
                while i < list.len()
                    invariant
                        i <= list@.len(),
                        out@.len() == i,
                        forall|j: int|
                            0 <= j < i ==> #[trigger] out@[j] == decode_edge_spec(list@[j]),
                    decreases list@.len() - i,
                {
                    out.push(Edge::from_record(&list[i]));
                    i = i + 1;
                }
                proof {
                    assert(out@ =~= decode_edges_spec(list@));
                }
                Some(out)
            },
            None => None,
        };
        Entity {
            id: r.id,
            vector,
            metadata: clone_metadata(&r.metadata),
            edges,
            created_at: r.created_at,
            updated_at: r.updated_at,
            version: r.version,
            tier: r.tier,
            polynomial_embedding: None,
            access_statistics: r.access_statistics.snapshot(),
            compression_metadata: None,
        }
    }
}

} // verus!
