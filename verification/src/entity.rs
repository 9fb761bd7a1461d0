//! Entities, their access statistics and the tier state machine.
//!
//! An entity bundles an optional vector embedding, free-form metadata,
//! probabilistic edges and rolling access statistics, and sits in one of
//! three storage tiers (hot/warm/cold). Promotion and demotion are
//! one-step decisions derived from the access statistics; an external
//! scheduler polls the decisions and applies the transitions.
//!
//! Access frequencies and thresholds are fixed-point ratios in `SCALE`
//! units of accesses per hour. Time-dependent operations have an `*_at`
//! form that takes the current timestamp and carries the exact
//! contract; the plain form reads the wall clock.

use crate::edges::Edge;
use crate::fixed::{
    ema_frequency, ema_frequency_spec, elapsed_ms, elapsed_ms_spec, hours_fixed,
    hours_fixed_spec, MAX_FREQUENCY, SCALE,
};
use crate::time::current_timestamp_ms;
use crate::types::EntityId;
use crate::vector::Vector;
use vstd::prelude::*;

verus! {

/// Most entries the co-access history may hold.
pub const CO_ACCESS_LIMIT: usize = 100;

/// Hours without access (in `SCALE` units) after which an entity counts
/// as stagnant: 90 days.
pub const STAGNANT_HOURS_FIXED: u64 = 2_160_000_000;

/// The hierarchical storage tier of an entity, totally ordered
/// cold < warm < hot.
#[derive(Clone, Copy, PartialEq, Eq, Structural, Debug)]
pub enum MemoryTier {
    /// RAM/NVMe storage, sub-millisecond access, frequently accessed.
    Hot,
    /// NVMe/SSD storage, single-digit milliseconds, moderately accessed.
    Warm,
    /// Object storage, tens of milliseconds, rarely accessed.
    Cold,
}

/// The position of a tier in the hierarchy: cold lowest, hot highest.
pub open spec fn tier_rank(t: MemoryTier) -> int {
    match t {
        MemoryTier::Cold => 0,
        MemoryTier::Warm => 1,
        MemoryTier::Hot => 2,
    }
}

/// The next tier up; hot has none and stays hot.
pub open spec fn tier_above(t: MemoryTier) -> MemoryTier {
    match t {
        MemoryTier::Cold => MemoryTier::Warm,
        MemoryTier::Warm => MemoryTier::Hot,
        MemoryTier::Hot => MemoryTier::Hot,
    }
}

/// The next tier down; cold has none and stays cold.
pub open spec fn tier_below(t: MemoryTier) -> MemoryTier {
    match t {
        MemoryTier::Hot => MemoryTier::Warm,
        MemoryTier::Warm => MemoryTier::Cold,
        MemoryTier::Cold => MemoryTier::Cold,
    }
}

/// The access frequency (in `SCALE` units of accesses per hour) at or
/// above which a tier promotes; hot never promotes, so its threshold is
/// unreachable.
pub open spec fn promotion_threshold_spec(t: MemoryTier) -> int {
    match t {
        MemoryTier::Cold => 10 * SCALE as int,
        MemoryTier::Warm => 100 * SCALE as int,
        MemoryTier::Hot => u64::MAX as int,
    }
}

/// The access frequency (in `SCALE` units of accesses per hour) below
/// which a tier may demote; cold never demotes, so its threshold is
/// zero.
pub open spec fn demotion_threshold_spec(t: MemoryTier) -> int {
    match t {
        MemoryTier::Hot => SCALE as int,
        MemoryTier::Warm => SCALE as int / 10,
        MemoryTier::Cold => 0,
    }
}

/// How long (fixed-point hours) the access rate must have stayed low
/// before a tier demotes: a day for hot, a week for warm.
pub open spec fn demotion_window_spec(t: MemoryTier) -> int {
    match t {
        MemoryTier::Hot => 24 * SCALE as int,
        MemoryTier::Warm => 168 * SCALE as int,
        MemoryTier::Cold => 0,
    }
}

/// An entity promotes exactly when its tier has somewhere to go and the
/// access frequency has reached the tier's promotion threshold.
pub open spec fn should_promote_spec(t: MemoryTier, freq: int) -> bool {
    match t {
        MemoryTier::Cold => freq >= 10 * SCALE as int,
        MemoryTier::Warm => freq >= 100 * SCALE as int,
        MemoryTier::Hot => false,
    }
}

/// An entity demotes exactly when its tier has somewhere to fall, the
/// access frequency is under the tier's demotion threshold, and enough
/// idle hours have accumulated; the rate alone is never enough.
pub open spec fn should_demote_spec(t: MemoryTier, freq: int, idle_hours: int) -> bool {
    match t {
        MemoryTier::Hot => freq < SCALE as int && idle_hours >= 24 * SCALE as int,
        MemoryTier::Warm => freq < SCALE as int / 10 && idle_hours >= 168 * SCALE as int,
        MemoryTier::Cold => false,
    }
}

impl MemoryTier {
    /// The typical access latency of the tier's storage class: half a
    /// millisecond for hot, five milliseconds for warm, fifty for cold.
    pub fn latency_characteristics(&self) -> (r: core::time::Duration)
        ensures
            *self == MemoryTier::Hot ==> r == crate::time::duration_from_micros_spec(500),
            *self == MemoryTier::Warm ==> r == crate::time::duration_from_millis_spec(5),
            *self == MemoryTier::Cold ==> r == crate::time::duration_from_millis_spec(50),
    {
        match self {
            MemoryTier::Hot => core::time::Duration::from_micros(500),
            MemoryTier::Warm => core::time::Duration::from_millis(5),
            MemoryTier::Cold => core::time::Duration::from_millis(50),
        }
    }

    /// The promotion threshold in `SCALE` units of accesses per hour;
    /// hot returns an unreachable sentinel, as no frequency promotes it.
    pub fn promotion_threshold(&self) -> (r: u64)
        ensures
            r == promotion_threshold_spec(*self),
    {
        match self {
            MemoryTier::Cold => 10 * SCALE,
            MemoryTier::Warm => 100 * SCALE,
            MemoryTier::Hot => u64::MAX,
        }
    }

    /// The demotion threshold in `SCALE` units of accesses per hour;
    /// cold returns zero, as no frequency demotes it.
    pub fn demotion_threshold(&self) -> (r: u64)
        ensures
            r == demotion_threshold_spec(*self),
    {
        match self {
            MemoryTier::Hot => SCALE,
            MemoryTier::Warm => SCALE / 10,
            MemoryTier::Cold => 0,
        }
    }
}

/// Tier transitions move one step at a time and never skip a level: one
/// promotion from cold lands on warm, never hot, and one demotion from
/// hot lands on warm, never cold.
pub proof fn lemma_tier_steps_are_adjacent(t: MemoryTier)
    ensures
        tier_rank(t) <= tier_rank(tier_above(t)) <= tier_rank(t) + 1,
        tier_rank(t) - 1 <= tier_rank(tier_below(t)) <= tier_rank(t),
        tier_above(MemoryTier::Cold) == MemoryTier::Warm,
        tier_below(MemoryTier::Hot) == MemoryTier::Warm,
        tier_above(MemoryTier::Hot) == MemoryTier::Hot,
        tier_below(MemoryTier::Cold) == MemoryTier::Cold,
{
}

/// The promotion decision is exactly the comparison of the access
/// frequency against the tier's promotion threshold, with equality
/// promoting; the demotion decision is the strict comparison against
/// the demotion threshold together with the tier's idle window.
pub proof fn lemma_decisions_match_thresholds(t: MemoryTier, freq: int, idle_hours: int)
    requires
        0 <= freq <= MAX_FREQUENCY,
    ensures
        should_promote_spec(t, freq) == (freq >= promotion_threshold_spec(t)),
        should_demote_spec(t, freq, idle_hours) == (freq < demotion_threshold_spec(t)
            && idle_hours >= demotion_window_spec(t)),
{
}

/// Rolling access statistics for one entity: a total counter, the
/// last-access timestamp, an exponential-moving-average access
/// frequency, and a bounded, duplicate-free co-access history.
pub struct AccessStatistics {
    /// Total number of accesses recorded.
    pub total_accesses: u64,
    /// Timestamp of the last access, milliseconds since the epoch.
    pub last_access: u64,
    /// Access frequency in `SCALE` units of accesses per hour,
    /// smoothed by an exponential moving average.
    pub access_frequency: u64,
    /// Entities recently co-accessed with this one: insertion-ordered,
    /// duplicate-free, at most `CO_ACCESS_LIMIT` entries with FIFO
    /// eviction.
    pub co_access_entities: Vec<EntityId>,
}

/// No identifier occurs twice in the history.
pub open spec fn distinct_seq(s: Seq<EntityId>) -> bool {
    forall|i: int, j: int| 0 <= i < j < s.len() ==> s[i] != s[j]
}

impl AccessStatistics {
    /// The frequency is representable and the co-access history is
    /// bounded and duplicate-free.
    pub open spec fn wf(self) -> bool {
        &&& self.access_frequency <= MAX_FREQUENCY
        &&& self.co_access_entities@.len() <= CO_ACCESS_LIMIT
        &&& distinct_seq(self.co_access_entities@)
    }

    /// Fresh statistics at a given timestamp: no accesses, zero
    /// frequency, empty history.
    pub fn new_at(now_ms: u64) -> (r: AccessStatistics)
        ensures
            r.total_accesses == 0,
            r.last_access == now_ms,
            r.access_frequency == 0,
            r.co_access_entities@.len() == 0,
            r.wf(),
    {
        AccessStatistics {
            total_accesses: 0,
            last_access: now_ms,
            access_frequency: 0,
            co_access_entities: Vec::new(),
        }
    }

    /// Fresh statistics, stamped with the wall clock's reading.
    pub fn new() -> (r: AccessStatistics)
        ensures
            r.total_accesses == 0,
            r.access_frequency == 0,
            r.co_access_entities@.len() == 0,
            r.wf(),
    {
        let now = current_timestamp_ms();
        AccessStatistics::new_at(now)
    }

    /// Record an access at a given timestamp: the total goes up by one,
    /// the instantaneous rate since the previous access is folded into
    /// the frequency (unchanged when no time has passed), and the
    /// last-access timestamp is replaced.
    pub fn record_access_at(&mut self, now_ms: u64)
        requires
            old(self).wf(),
            old(self).total_accesses < u64::MAX,
        ensures
            final(self).total_accesses == old(self).total_accesses + 1,
            final(self).last_access == now_ms,
            final(self).access_frequency == ema_frequency_spec(
                old(self).access_frequency as int,
                elapsed_ms_spec(now_ms as int, old(self).last_access as int),
            ),
            final(self).co_access_entities@ == old(self).co_access_entities@,
            final(self).wf(),
    {
        let elapsed = elapsed_ms(now_ms, self.last_access);
        self.total_accesses = self.total_accesses + 1;
        self.last_access = now_ms;
        self.access_frequency = ema_frequency(self.access_frequency, elapsed);
    }

    /// Record an access stamped with the wall clock's reading.
    pub fn record_access(&mut self)
        requires
            old(self).wf(),
            old(self).total_accesses < u64::MAX,
        ensures
            final(self).total_accesses == old(self).total_accesses + 1,
            final(self).co_access_entities@ == old(self).co_access_entities@,
            final(self).wf(),
    {
        let now = current_timestamp_ms();
        self.record_access_at(now);
    }

    /// Record a co-access with another entity: appended to the history
    /// if not already present, evicting the oldest entry when the
    /// history is full. The history never exceeds `CO_ACCESS_LIMIT`
    /// entries and never holds duplicates.
    pub fn record_co_access(&mut self, entity_id: EntityId)
        requires
            old(self).wf(),
        ensures
            final(self).wf(),
            old(self).co_access_entities@.contains(entity_id) ==> final(self).co_access_entities@
                == old(self).co_access_entities@,
            !old(self).co_access_entities@.contains(entity_id) && old(
                self,
            ).co_access_entities@.len() < CO_ACCESS_LIMIT ==> final(self).co_access_entities@
                == old(self).co_access_entities@.push(entity_id),
            !old(self).co_access_entities@.contains(entity_id) && old(
                self,
            ).co_access_entities@.len() == CO_ACCESS_LIMIT ==> final(self).co_access_entities@
                == old(self).co_access_entities@.subrange(1, CO_ACCESS_LIMIT as int).push(
                entity_id,
            ),
            final(self).total_accesses == old(self).total_accesses,
            final(self).last_access == old(self).last_access,
            final(self).access_frequency == old(self).access_frequency,
    {
        let ghost orig = self.co_access_entities@;
        let mut i: usize = 0;
        let n = self.co_access_entities.len();
        while i < n
            invariant
                i <= n,
                *self == *old(self),
                old(self).wf(),
                orig == self.co_access_entities@,
                n == self.co_access_entities@.len(),
                forall|j: int| 0 <= j < i ==> self.co_access_entities@[j] != entity_id,
            decreases n - i,
        {
            if self.co_access_entities[i] == entity_id {
                proof {
                    assert(orig[i as int] == entity_id);
                    assert(orig.contains(entity_id));
                }
                return ;
            }
            i = i + 1;
        }
        assert(!orig.contains(entity_id));
        self.co_access_entities.push(entity_id);
        if self.co_access_entities.len() > CO_ACCESS_LIMIT {
            self.co_access_entities.remove(0);
            proof {
                assert(self.co_access_entities@ =~= orig.subrange(1, CO_ACCESS_LIMIT as int).push(
                    entity_id,
                ));
            }
        }
    }

    /// A fresh, independently owned copy of the statistics.
    pub fn snapshot(&self) -> (r: AccessStatistics)
        ensures
            r.total_accesses == self.total_accesses,
            r.last_access == self.last_access,
            r.access_frequency == self.access_frequency,
            r.co_access_entities@ == self.co_access_entities@,
    {
        let mut ids: Vec<EntityId> = Vec::new();
        let mut i: usize = 0;
        while i < self.co_access_entities.len()
            invariant
                i <= self.co_access_entities@.len(),
                ids@ == self.co_access_entities@.take(i as int),
            decreases self.co_access_entities@.len() - i,
        {
            proof {
                assert(self.co_access_entities@.take(i + 1) =~= self.co_access_entities@.take(
                    i as int,
                ).push(self.co_access_entities@[i as int]));
            }
            ids.push(self.co_access_entities[i]);
            i = i + 1;
        }
        proof {
            assert(self.co_access_entities@.take(self.co_access_entities@.len() as int)
                =~= self.co_access_entities@);
        }
        AccessStatistics {
            total_accesses: self.total_accesses,
            last_access: self.last_access,
            access_frequency: self.access_frequency,
            co_access_entities: ids,
        }
    }

    /// Fixed-point hours elapsed between the last access and `now_ms`.
    pub fn hours_since_last_access_at(&self, now_ms: u64) -> (r: u64)
        ensures
            r == hours_fixed_spec(elapsed_ms_spec(now_ms as int, self.last_access as int)),
    {
        hours_fixed(elapsed_ms(now_ms, self.last_access))
    }

    /// Fixed-point hours elapsed since the last access, measured
    /// against the wall clock.
    pub fn hours_since_last_access(&self) -> u64 {
        let now = current_timestamp_ms();
        self.hours_since_last_access_at(now)
    }

    /// Whether the entity has gone unaccessed for at least 90 days as
    /// of `now_ms`.
    pub fn is_stagnant_at(&self, now_ms: u64) -> (r: bool)
        ensures
            r == (hours_fixed_spec(elapsed_ms_spec(now_ms as int, self.last_access as int))
                >= STAGNANT_HOURS_FIXED),
    {
        self.hours_since_last_access_at(now_ms) >= STAGNANT_HOURS_FIXED
    }

    /// Whether the entity has gone unaccessed for at least 90 days,
    /// measured against the wall clock.
    pub fn is_stagnant(&self) -> bool {
        let now = current_timestamp_ms();
        self.is_stagnant_at(now)
    }
}

/// The unified record of the substrate: an optional vector embedding,
/// optional metadata, optional edges, timestamps, an advisory version
/// counter, the storage tier and the access statistics.
pub struct Entity {
    /// Unique identifier.
    pub id: EntityId,
    /// Optional vector embedding.
    pub vector: Option<Vector>,
    /// Optional free-form metadata.
    pub metadata: Option<serde_json::Value>,
    /// Optional probabilistic relationships to other entities.
    pub edges: Option<Vec<Edge>>,
    /// Creation timestamp, milliseconds since the epoch.
    pub created_at: u64,
    /// Last-update timestamp, milliseconds since the epoch.
    pub updated_at: u64,
    /// Advisory optimistic-concurrency counter: incremented by every
    /// externally visible mutation, interpreted only by an outer
    /// transaction layer.
    pub version: u64,
    /// Current storage tier.
    pub tier: MemoryTier,
    /// Placeholder owned by the external indexing subsystem.
    pub polynomial_embedding: Option<PolynomialEmbedding>,
    /// Rolling access statistics.
    pub access_statistics: AccessStatistics,
    /// Placeholder owned by the external compression subsystem.
    pub compression_metadata: Option<CompressionMetadata>,
}

impl Entity {
    /// The entity's statistics are well formed.
    pub open spec fn wf(self) -> bool {
        self.access_statistics.wf()
    }

    /// Construct an entity at a given timestamp under a given
    /// identifier: version 1, hot tier, fresh statistics.
    pub fn new_at(
        vector: Option<Vector>,
        metadata: Option<serde_json::Value>,
        edges: Option<Vec<Edge>>,
        id: EntityId,
        now_ms: u64,
    ) -> (r: Entity)
        ensures
            r.id == id,
            r.vector == vector,
            r.metadata == metadata,
            r.edges == edges,
            r.created_at == now_ms,
            r.updated_at == now_ms,
            r.version == 1,
            r.tier == MemoryTier::Hot,
            r.polynomial_embedding is None,
            r.access_statistics.total_accesses == 0,
            r.access_statistics.last_access == now_ms,
            r.access_statistics.access_frequency == 0,
            r.access_statistics.co_access_entities@.len() == 0,
            r.compression_metadata is None,
            r.wf(),
    {
        Entity {
            id,
            vector,
            metadata,
            edges,
            created_at: now_ms,
            updated_at: now_ms,
            version: 1,
            tier: MemoryTier::Hot,
            polynomial_embedding: None,
            access_statistics: AccessStatistics::new_at(now_ms),
            compression_metadata: None,
        }
    }

    /// Construct an entity now: a freshly generated identifier, the
    /// wall clock's reading as both timestamps, version 1, hot tier,
    /// fresh statistics.
    pub fn new(
        vector: Option<Vector>,
        metadata: Option<serde_json::Value>,
        edges: Option<Vec<Edge>>,
    ) -> (r: Entity)
        ensures
            r.vector == vector,
            r.metadata == metadata,
            r.edges == edges,
            r.created_at == r.updated_at,
            r.version == 1,
            r.tier == MemoryTier::Hot,
            r.polynomial_embedding is None,
            r.access_statistics.total_accesses == 0,
            r.access_statistics.access_frequency == 0,
            r.access_statistics.co_access_entities@.len() == 0,
            r.compression_metadata is None,
            r.wf(),
    {
        let id = EntityId::new();
        let now = current_timestamp_ms();
        Entity::new_at(vector, metadata, edges, id, now)
    }

    /// Record an access at a given timestamp: the statistics absorb the
    /// access, the update timestamp is replaced, and the version goes
    /// up by one. Tier changes are left to the external scheduler.
    pub fn record_access_at(&mut self, now_ms: u64)
        requires
            old(self).wf(),
            old(self).access_statistics.total_accesses < u64::MAX,
            old(self).version < u64::MAX,
        ensures
            final(self).access_statistics.total_accesses == old(
                self,
            ).access_statistics.total_accesses + 1,
            final(self).access_statistics.last_access == now_ms,
            final(self).access_statistics.access_frequency == ema_frequency_spec(
                old(self).access_statistics.access_frequency as int,
                elapsed_ms_spec(now_ms as int, old(self).access_statistics.last_access as int),
            ),
            final(self).access_statistics.co_access_entities@ == old(
                self,
            ).access_statistics.co_access_entities@,
            final(self).updated_at == now_ms,
            final(self).version == old(self).version + 1,
            final(self).id == old(self).id,
            final(self).vector == old(self).vector,
            final(self).metadata == old(self).metadata,
            final(self).edges == old(self).edges,
            final(self).created_at == old(self).created_at,
            final(self).polynomial_embedding == old(self).polynomial_embedding,
            final(self).compression_metadata == old(self).compression_metadata,
            final(self).tier == old(self).tier,
            final(self).wf(),
    {
        self.access_statistics.record_access_at(now_ms);
        self.updated_at = now_ms;
        self.version = self.version + 1;
    }

    /// Record an access stamped with the wall clock's reading.
    pub fn record_access(&mut self)
        requires
            old(self).wf(),
            old(self).access_statistics.total_accesses < u64::MAX,
            old(self).version < u64::MAX,
        ensures
            final(self).access_statistics.total_accesses == old(
                self,
            ).access_statistics.total_accesses + 1,
            final(self).access_statistics.co_access_entities@ == old(
                self,
            ).access_statistics.co_access_entities@,
            final(self).version == old(self).version + 1,
            final(self).id == old(self).id,
            final(self).vector == old(self).vector,
            final(self).metadata == old(self).metadata,
            final(self).edges == old(self).edges,
            final(self).created_at == old(self).created_at,
            final(self).polynomial_embedding == old(self).polynomial_embedding,
            final(self).compression_metadata == old(self).compression_metadata,
            final(self).tier == old(self).tier,
            final(self).wf(),
    {
        let now = current_timestamp_ms();
        self.record_access_at(now);
    }

    /// Whether the entity's access frequency has reached its tier's
    /// promotion threshold; a hot entity never promotes.
    pub fn should_promote(&self) -> (r: bool)
        ensures
            r == should_promote_spec(self.tier, self.access_statistics.access_frequency as int),
    {
        match self.tier {
            MemoryTier::Cold => self.access_statistics.access_frequency >= 10 * SCALE,
            MemoryTier::Warm => self.access_statistics.access_frequency >= 100 * SCALE,
            MemoryTier::Hot => false,
        }
    }

    /// Whether, as of `now_ms`, the entity's access frequency is under
    /// its tier's demotion threshold and has been idle for the tier's
    /// window; a cold entity never demotes.
    pub fn should_demote_at(&self, now_ms: u64) -> (r: bool)
        ensures
            r == should_demote_spec(
                self.tier,
                self.access_statistics.access_frequency as int,
                hours_fixed_spec(
                    elapsed_ms_spec(now_ms as int, self.access_statistics.last_access as int),
                ),
            ),
    {
        let idle_hours = self.access_statistics.hours_since_last_access_at(now_ms);
        match self.tier {
            MemoryTier::Hot => self.access_statistics.access_frequency < SCALE && idle_hours
                >= 24 * SCALE,
            MemoryTier::Warm => self.access_statistics.access_frequency < SCALE / 10
                && idle_hours >= 168 * SCALE,
            MemoryTier::Cold => false,
        }
    }

    /// Whether the entity should demote, measured against the wall
    /// clock; a cold entity never demotes.
    pub fn should_demote(&self) -> (r: bool)
        ensures
            self.tier == MemoryTier::Cold ==> !r,
            r ==> self.access_statistics.access_frequency < demotion_threshold_spec(self.tier),
    {
        let now = current_timestamp_ms();
        self.should_demote_at(now)
    }

    /// Move one tier up at a given timestamp; a hot entity stays hot.
    /// Never skips a level.
    pub fn promote_at(&mut self, now_ms: u64)
        requires
            old(self).version < u64::MAX,
        ensures
            final(self).tier == tier_above(old(self).tier),
            final(self).updated_at == now_ms,
            final(self).version == old(self).version + 1,
            final(self).id == old(self).id,
            final(self).vector == old(self).vector,
            final(self).metadata == old(self).metadata,
            final(self).edges == old(self).edges,
            final(self).created_at == old(self).created_at,
            final(self).polynomial_embedding == old(self).polynomial_embedding,
            final(self).compression_metadata == old(self).compression_metadata,
            final(self).access_statistics == old(self).access_statistics,
    {
        self.tier = match self.tier {
            MemoryTier::Cold => MemoryTier::Warm,
            MemoryTier::Warm => MemoryTier::Hot,
            MemoryTier::Hot => MemoryTier::Hot,
        };
        self.updated_at = now_ms;
        self.version = self.version + 1;
    }

    /// Move one tier up, stamped with the wall clock's reading.
    pub fn promote(&mut self)
        requires
            old(self).version < u64::MAX,
        ensures
            final(self).tier == tier_above(old(self).tier),
            final(self).version == old(self).version + 1,
            final(self).id == old(self).id,
            final(self).vector == old(self).vector,
            final(self).metadata == old(self).metadata,
            final(self).edges == old(self).edges,
            final(self).created_at == old(self).created_at,
            final(self).polynomial_embedding == old(self).polynomial_embedding,
            final(self).compression_metadata == old(self).compression_metadata,
            final(self).access_statistics == old(self).access_statistics,
    {
        let now = current_timestamp_ms();
        self.promote_at(now);
    }

    /// Move one tier down at a given timestamp; a cold entity stays
    /// cold. Never skips a level.
    pub fn demote_at(&mut self, now_ms: u64)
        requires
            old(self).version < u64::MAX,
        ensures
            final(self).tier == tier_below(old(self).tier),
            final(self).updated_at == now_ms,
            final(self).version == old(self).version + 1,
            final(self).id == old(self).id,
            final(self).vector == old(self).vector,
            final(self).metadata == old(self).metadata,
            final(self).edges == old(self).edges,
            final(self).created_at == old(self).created_at,
            final(self).polynomial_embedding == old(self).polynomial_embedding,
            final(self).compression_metadata == old(self).compression_metadata,
            final(self).access_statistics == old(self).access_statistics,
    {
        self.tier = match self.tier {
            MemoryTier::Hot => MemoryTier::Warm,
            MemoryTier::Warm => MemoryTier::Cold,
            MemoryTier::Cold => MemoryTier::Cold,
        };
        self.updated_at = now_ms;
        self.version = self.version + 1;
    }

    /// Move one tier down, stamped with the wall clock's reading.
    pub fn demote(&mut self)
        requires
            old(self).version < u64::MAX,
        ensures
            final(self).tier == tier_below(old(self).tier),
            final(self).version == old(self).version + 1,
            final(self).id == old(self).id,
            final(self).vector == old(self).vector,
            final(self).metadata == old(self).metadata,
            final(self).edges == old(self).edges,
            final(self).created_at == old(self).created_at,
            final(self).polynomial_embedding == old(self).polynomial_embedding,
            final(self).compression_metadata == old(self).compression_metadata,
            final(self).access_statistics == old(self).access_statistics,
    {
        let now = current_timestamp_ms();
        self.demote_at(now);
    }
}

/// A fresh copy of a list of plain (copyable) values.
fn clone_plain_vec<T: Copy>(v: &Vec<T>) -> (r: Vec<T>)
    ensures
        r@ == v@,
{
    let mut out: Vec<T> = Vec::new();
    let mut i: usize = 0;
    while i < v.len()
        invariant
            i <= v@.len(),
            out@ == v@.take(i as int),
        decreases v@.len() - i,
    {
        proof {
            assert(v@.take(i + 1) =~= v@.take(i as int).push(v@[i as int]));
        }
        out.push(v[i]);
        i = i + 1;
    }
    proof {
        assert(v@.take(v@.len() as int) =~= v@);
    }
    out
}

impl Entity {
    /// A fresh, independently owned copy of the entity: the vector,
    /// metadata, edges, statistics and subsystem placeholders are all
    /// copied, with the edges' access bookkeeping materialized at its
    /// current values. The copy shares no mutable state with the
    /// original.
    pub fn snapshot(&self) -> (r: Entity)
        ensures
            r.id == self.id,
            r.metadata == self.metadata,
            r.created_at == self.created_at,
            r.updated_at == self.updated_at,
            r.version == self.version,
            r.tier == self.tier,
            r.access_statistics.total_accesses == self.access_statistics.total_accesses,
            r.access_statistics.last_access == self.access_statistics.last_access,
            r.access_statistics.access_frequency == self.access_statistics.access_frequency,
            r.access_statistics.co_access_entities@
                == self.access_statistics.co_access_entities@,
            r.vector is Some <==> self.vector is Some,
            self.vector is Some ==> {
                &&& r.vector->0.dimensions == self.vector->0.dimensions
                &&& r.vector->0.values@ == self.vector->0.values@
                &&& r.vector->0.norm == self.vector->0.norm
            },
            r.edges is Some <==> self.edges is Some,
            self.edges is Some ==> r.edges->0@.len() == self.edges->0@.len() && forall|i: int|
                0 <= i < self.edges->0@.len() ==> #[trigger] r.edges->0@[i] == self.edges->0@[i],
            r.polynomial_embedding is Some <==> self.polynomial_embedding is Some,
            self.polynomial_embedding is Some ==> embedding_eq_spec(
                r.polynomial_embedding->0,
                self.polynomial_embedding->0,
            ),
            r.compression_metadata is Some <==> self.compression_metadata is Some,
            self.compression_metadata is Some ==> compression_eq_spec(
                r.compression_metadata->0,
                self.compression_metadata->0,
            ),
    {
        let vector = match &self.vector {
            Some(v) => Some(v.snapshot()),
            None => None,
        };
        let edges = match &self.edges {
            Some(list) => {
                let mut out: Vec<Edge> = Vec::new();
                let mut i: usize = 0;
                while i < list.len()
                    invariant
                        i <= list@.len(),
                        out@.len() == i,
                        forall|j: int| 0 <= j < i ==> #[trigger] out@[j] == list@[j],
                    decreases list@.len() - i,
                {
                    out.push(list[i].snapshot());
                    i = i + 1;
                }
                Some(out)
            },
            None => None,
        };
        let polynomial_embedding = match &self.polynomial_embedding {
            Some(p) => Some(
                PolynomialEmbedding {
                    coefficients: clone_plain_vec(&p.coefficients),
                    degree: p.degree,
                    metadata_hash: p.metadata_hash,
                    edge_signature: clone_plain_vec(&p.edge_signature),
                },
            ),
            None => None,
        };
        let compression_metadata = match &self.compression_metadata {
            Some(c) => Some(
                CompressionMetadata {
                    method: match &c.method {
                        CompressionMethod::RamanujanSeries { coefficients, degree } => {
                            CompressionMethod::RamanujanSeries {
                                coefficients: clone_plain_vec(coefficients),
                                degree: *degree,
                            }
                        },
                        CompressionMethod::PatternDictionary { refs } => {
                            CompressionMethod::PatternDictionary { refs: clone_plain_vec(refs) }
                        },
                        CompressionMethod::Hybrid { series, refs } => {
                            CompressionMethod::Hybrid {
                                series: clone_plain_vec(series),
                                refs: clone_plain_vec(refs),
                            }
                        },
                        CompressionMethod::Uncompressed => CompressionMethod::Uncompressed,
                    },
                    original_size: c.original_size,
                    compressed_size: c.compressed_size,
                    compression_ratio: c.compression_ratio,
                    dictionary_refs: clone_plain_vec(&c.dictionary_refs),
                },
            ),
            None => None,
        };
        Entity {
            id: self.id,
            vector,
            metadata: crate::metadata::clone_metadata(&self.metadata),
            edges,
            created_at: self.created_at,
            updated_at: self.updated_at,
            version: self.version,
            tier: self.tier,
            polynomial_embedding,
            access_statistics: self.access_statistics.snapshot(),
            compression_metadata,
        }
    }
}

/// Placeholder for the external indexing subsystem: an entity stored as
/// polynomial coefficients (fixed-point, in `SCALE` units). No
/// algorithm in this crate reads it.
pub struct PolynomialEmbedding {
    /// Polynomial coefficients, fixed-point in `SCALE` units.
    pub coefficients: Vec<i64>,
    /// Polynomial degree.
    pub degree: usize,
    /// Hash of the metadata, for quick filtering.
    pub metadata_hash: u64,
    /// Compact edge representation.
    pub edge_signature: Vec<u8>,
}

/// Placeholder for the external compression subsystem: how a cold
/// entity was compressed. No algorithm in this crate reads it.
pub struct CompressionMetadata {
    /// Compression method used.
    pub method: CompressionMethod,
    /// Original size in bytes.
    pub original_size: usize,
    /// Compressed size in bytes.
    pub compressed_size: usize,
    /// Compressed over original size, fixed-point in `SCALE` units.
    pub compression_ratio: u64,
    /// Dictionary references, for pattern dictionary compression.
    pub dictionary_refs: Vec<u64>,
}

/// Compression strategies of the external compression subsystem.
pub enum CompressionMethod {
    /// Series encoding with fixed-point coefficients.
    RamanujanSeries {
        /// Series coefficients, fixed-point in `SCALE` units.
        coefficients: Vec<i64>,
        /// Series degree.
        degree: usize,
    },
    /// Pattern dictionary compression.
    PatternDictionary {
        /// Dictionary references.
        refs: Vec<u64>,
    },
    /// Series encoding combined with a pattern dictionary.
    Hybrid {
        /// Series coefficients, fixed-point in `SCALE` units.
        series: Vec<i64>,
        /// Dictionary references.
        refs: Vec<u64>,
    },
    /// No compression.
    Uncompressed,
}

/// Two polynomial embeddings carry the same contents.
pub open spec fn embedding_eq_spec(a: PolynomialEmbedding, b: PolynomialEmbedding) -> bool {
    &&& a.coefficients@ == b.coefficients@
    &&& a.degree == b.degree
    &&& a.metadata_hash == b.metadata_hash
    &&& a.edge_signature@ == b.edge_signature@
}

/// Two compression methods use the same strategy with the same
/// contents.
pub open spec fn method_eq_spec(a: CompressionMethod, b: CompressionMethod) -> bool {
    match (a, b) {
        (
            CompressionMethod::RamanujanSeries { coefficients: ca, degree: da },
            CompressionMethod::RamanujanSeries { coefficients: cb, degree: db },
        ) => ca@ == cb@ && da == db,
        (
            CompressionMethod::PatternDictionary { refs: ra },
            CompressionMethod::PatternDictionary { refs: rb },
        ) => ra@ == rb@,
        (
            CompressionMethod::Hybrid { series: sa, refs: ra },
            CompressionMethod::Hybrid { series: sb, refs: rb },
        ) => sa@ == sb@ && ra@ == rb@,
        (CompressionMethod::Uncompressed, CompressionMethod::Uncompressed) => true,
        _ => false,
    }
}

/// Two compression records carry the same contents.
pub open spec fn compression_eq_spec(a: CompressionMetadata, b: CompressionMetadata) -> bool {
    &&& method_eq_spec(a.method, b.method)
    &&& a.original_size == b.original_size
    &&& a.compressed_size == b.compressed_size
    &&& a.compression_ratio == b.compression_ratio
    &&& a.dictionary_refs@ == b.dictionary_refs@
}

impl Default for AccessStatistics {
    /// Fresh statistics, as `new`.
    fn default() -> (r: AccessStatistics)
        ensures
            r.total_accesses == 0,
            r.access_frequency == 0,
            r.co_access_entities@.len() == 0,
            r.wf(),
    {
        AccessStatistics::new()
    }
}

} // verus!
