//! Probabilistic edges between entities.
//!
//! An edge is a directed, labeled relationship carrying a learned
//! probability in the unit interval, an access counter and a
//! last-access timestamp. The probability is moved toward a target by an
//! exponential-moving-average learning step, decays exponentially with
//! inactivity, and feeds an external pruning sweep; the edge never
//! deletes itself.
//!
//! Probabilities, weights and rates are fixed-point ratios in `SCALE`
//! units. Time-dependent operations have an `*_at` form that takes the
//! current timestamp and carries the exact contract; the plain form
//! reads the wall clock and promises what holds for every reading.

use crate::error::MemorySubstrateError;
use crate::fixed::{
    decay_spec, decay_value, elapsed_ms, elapsed_ms_spec, learn_spec, learn_step,
    lemma_learn_bounds, SCALE, MS_PER_DAY,
};
use crate::time::current_timestamp_ms;
use crate::types::EntityId;
use vstd::prelude::*;

verus! {

/// Days of inactivity become milliseconds, saturating at the largest
/// representable timestamp span.
pub open spec fn inactivity_ms_spec(days: int) -> int {
    if days * MS_PER_DAY > u64::MAX {
        u64::MAX as int
    } else {
        days * MS_PER_DAY
    }
}

/// An edge is prunable when its probability has fallen below the
/// threshold, or when it has not been accessed for more than the given
/// number of days; either condition alone suffices.
pub open spec fn should_prune_spec(
    probability: int,
    last_accessed: int,
    now: int,
    threshold: int,
    inactivity_days: int,
) -> bool {
    ||| probability < threshold
    ||| elapsed_ms_spec(now, last_accessed) > inactivity_ms_spec(inactivity_days)
}

/// A directed, labeled, probabilistically weighted relationship between
/// two entities.
///
/// The access counter and last-access timestamp are bookkeeping
/// mutated through exclusive references, so no update is ever lost;
/// callers that share one edge across threads bring their own
/// synchronization, as they must anyway for the probability, which is
/// a non-commutative update requiring external exclusion.
pub struct Edge {
    /// Source entity.
    pub source_id: EntityId,
    /// Target entity.
    pub target_id: EntityId,
    /// Relationship type.
    pub label: String,
    /// Static initial weight, a fixed-point ratio in `[0, SCALE]`.
    pub weight: u64,
    /// Optional free-form metadata.
    pub metadata: Option<serde_json::Value>,
    /// Learned probability, a fixed-point ratio in `[0, SCALE]`.
    pub probability: u64,
    /// How many times the edge has been accessed.
    pub access_count: u64,
    /// Timestamp of the last access, in milliseconds since the epoch.
    pub last_accessed: u64,
}

impl Edge {
    /// Probability and weight always stay in the unit interval.
    pub open spec fn wf(self) -> bool {
        self.probability <= SCALE && self.weight <= SCALE
    }

    /// Construct an edge at a given timestamp: the weight is clamped to
    /// the unit interval, the probability starts at the weight, and the
    /// access counter starts at zero.
    pub fn new_at(
        source_id: EntityId,
        target_id: EntityId,
        label: String,
        weight: i64,
        metadata: Option<serde_json::Value>,
        now_ms: u64,
    ) -> (r: Edge)
        ensures
            r.source_id == source_id,
            r.target_id == target_id,
            r.label == label,
            r.weight == crate::fixed::clamp_unit_spec(weight as int),
            r.probability == r.weight,
            r.metadata == metadata,
            r.access_count == 0,
            r.last_accessed == now_ms,
            r.wf(),
    {
        let weight = crate::fixed::clamp_unit(weight);
        Edge {
            source_id,
            target_id,
            label,
            weight,
            metadata,
            probability: weight,
            access_count: 0,
            last_accessed: now_ms,
        }
    }

    /// Construct an edge now: as `new_at`, with the last-access
    /// timestamp read from the wall clock.
    pub fn new(
        source_id: EntityId,
        target_id: EntityId,
        label: String,
        weight: i64,
        metadata: Option<serde_json::Value>,
    ) -> (r: Edge)
        ensures
            r.source_id == source_id,
            r.target_id == target_id,
            r.label == label,
            r.weight == crate::fixed::clamp_unit_spec(weight as int),
            r.probability == r.weight,
            r.metadata == metadata,
            r.access_count == 0,
            r.wf(),
    {
        let now = current_timestamp_ms();
        Edge::new_at(source_id, target_id, label, weight, metadata, now)
    }

    /// Record an access at a given timestamp: the counter goes up by
    /// one and the last-access timestamp is replaced.
    pub fn record_access_at(&mut self, now_ms: u64)
        requires
            old(self).access_count < u64::MAX,
        ensures
            final(self).access_count == old(self).access_count + 1,
            final(self).last_accessed == now_ms,
            final(self).source_id == old(self).source_id,
            final(self).target_id == old(self).target_id,
            final(self).label == old(self).label,
            final(self).weight == old(self).weight,
            final(self).metadata == old(self).metadata,
            final(self).probability == old(self).probability,
    {
        self.access_count = self.access_count + 1;
        self.last_accessed = now_ms;
    }

    /// Record an access now: the counter goes up by one and the
    /// last-access timestamp is replaced by the wall clock's reading.
    pub fn record_access(&mut self)
        requires
            old(self).access_count < u64::MAX,
        ensures
            final(self).access_count == old(self).access_count + 1,
            final(self).source_id == old(self).source_id,
            final(self).target_id == old(self).target_id,
            final(self).label == old(self).label,
            final(self).weight == old(self).weight,
            final(self).metadata == old(self).metadata,
            final(self).probability == old(self).probability,
    {
        let now = current_timestamp_ms();
        self.record_access_at(now);
    }

    /// The current access count.
    pub fn get_access_count(&self) -> (r: u64)
        ensures
            r == self.access_count,
    {
        self.access_count
    }

    /// The last-access timestamp, in milliseconds since the epoch.
    pub fn get_last_accessed(&self) -> (r: u64)
        ensures
            r == self.last_accessed,
    {
        self.last_accessed
    }

    /// One learning step: both inputs are clamped to the unit interval,
    /// then the probability moves a `learning_rate`-sized fraction of
    /// the way toward `target`, staying inside the unit interval.
    /// Returns the new probability.
    pub fn update_probability(&mut self, target: i64, learning_rate: i64) -> (r: u64)
        requires
            old(self).wf(),
        ensures
            final(self).probability == learn_spec(
                old(self).probability as int,
                target as int,
                learning_rate as int,
            ),
            r == final(self).probability,
            final(self).wf(),
            final(self).source_id == old(self).source_id,
            final(self).target_id == old(self).target_id,
            final(self).label == old(self).label,
            final(self).weight == old(self).weight,
            final(self).metadata == old(self).metadata,
            final(self).access_count == old(self).access_count,
            final(self).last_accessed == old(self).last_accessed,
    {
        self.probability = learn_step(self.probability, target, learning_rate);
        self.probability
    }

    /// Decay the probability for the time elapsed between the last
    /// access and `now_ms`: multiplication by an exponential decay
    /// factor at `decay_rate` per day. The last-access timestamp is not
    /// touched. Returns the new probability.
    pub fn apply_decay_at(&mut self, decay_rate: u64, now_ms: u64) -> (r: u64)
        requires
            old(self).wf(),
        ensures
            final(self).probability == decay_spec(
                old(self).probability as int,
                decay_rate as int,
                elapsed_ms_spec(now_ms as int, old(self).last_accessed as int),
            ),
            final(self).probability <= old(self).probability,
            r == final(self).probability,
            final(self).wf(),
            final(self).source_id == old(self).source_id,
            final(self).target_id == old(self).target_id,
            final(self).label == old(self).label,
            final(self).weight == old(self).weight,
            final(self).metadata == old(self).metadata,
            final(self).access_count == old(self).access_count,
            final(self).last_accessed == old(self).last_accessed,
    {
        let elapsed = elapsed_ms(now_ms, self.last_accessed);
        self.probability = decay_value(self.probability, decay_rate, elapsed);
        self.probability
    }

    /// Decay the probability for the time elapsed since the last
    /// access, measured against the wall clock. Decay never raises a
    /// probability. Returns the new probability.
    pub fn apply_decay(&mut self, decay_rate: u64) -> (r: u64)
        requires
            old(self).wf(),
        ensures
            final(self).probability <= old(self).probability,
            r == final(self).probability,
            final(self).wf(),
            final(self).source_id == old(self).source_id,
            final(self).target_id == old(self).target_id,
            final(self).label == old(self).label,
            final(self).weight == old(self).weight,
            final(self).metadata == old(self).metadata,
            final(self).access_count == old(self).access_count,
            final(self).last_accessed == old(self).last_accessed,
    {
        let now = current_timestamp_ms();
        self.apply_decay_at(decay_rate, now)
    }

    /// Whether the edge should be pruned as of `now_ms`: probability
    /// below the threshold, or no access for more than
    /// `inactivity_days` days.
    pub fn should_prune_at(&self, threshold: u64, inactivity_days: u64, now_ms: u64) -> (r:
        bool)
        ensures
            r == should_prune_spec(
                self.probability as int,
                self.last_accessed as int,
                now_ms as int,
                threshold as int,
                inactivity_days as int,
            ),
    {
        if self.probability < threshold {
            return true;
        }
        let inactivity_ms: u64 = if inactivity_days > u64::MAX / MS_PER_DAY {
            u64::MAX
        } else {
            proof {
                vstd::arithmetic::mul::lemma_mul_inequality(
                    inactivity_days as int,
                    (u64::MAX / MS_PER_DAY) as int,
                    MS_PER_DAY as int,
                );
                vstd::arithmetic::mul::lemma_mul_is_commutative(inactivity_days as int, MS_PER_DAY as int);
            }
            inactivity_days * MS_PER_DAY
        };
        elapsed_ms(now_ms, self.last_accessed) > inactivity_ms
    }

    /// Whether the edge should be pruned as of the wall clock's
    /// reading. Whatever the clock read: a probability below the
    /// threshold always prunes, and a prune verdict means the
    /// probability was below the threshold or the day allowance was
    /// small enough that some elapsed span can exceed it.
    pub fn should_prune(&self, threshold: u64, inactivity_days: u64) -> (r: bool)
        ensures
            self.probability < threshold ==> r,
            r ==> self.probability < threshold || inactivity_days <= u64::MAX / MS_PER_DAY,
    {
        let now = current_timestamp_ms();
        let r = self.should_prune_at(threshold, inactivity_days, now);
        proof {
            if r && self.probability >= threshold && inactivity_days > u64::MAX / MS_PER_DAY {
                let q = u64::MAX as int / MS_PER_DAY as int;
                vstd::arithmetic::div_mod::lemma_fundamental_div_mod(
                    u64::MAX as int,
                    MS_PER_DAY as int,
                );
                vstd::arithmetic::div_mod::lemma_mod_bound(u64::MAX as int, MS_PER_DAY as int);
                vstd::arithmetic::mul::lemma_mul_inequality(
                    q + 1,
                    inactivity_days as int,
                    MS_PER_DAY as int,
                );
                vstd::arithmetic::mul::lemma_mul_is_commutative(q + 1, MS_PER_DAY as int);
                vstd::arithmetic::mul::lemma_mul_is_commutative(q, MS_PER_DAY as int);
                vstd::arithmetic::mul::lemma_mul_is_distributive_add_other_way(
                    MS_PER_DAY as int,
                    q,
                    1,
                );
            }
        }
        r
    }

    /// A fresh, independently owned copy of the edge, with the access
    /// bookkeeping materialized at its current values.
    pub fn snapshot(&self) -> (r: Edge)
        ensures
            r.source_id == self.source_id,
            r.target_id == self.target_id,
            r.label == self.label,
            r.weight == self.weight,
            r.metadata == self.metadata,
            r.probability == self.probability,
            r.access_count == self.access_count,
            r.last_accessed == self.last_accessed,
    {
        Edge {
            source_id: self.source_id,
            target_id: self.target_id,
            label: self.label.clone(),
            weight: self.weight,
            metadata: crate::metadata::clone_metadata(&self.metadata),
            probability: self.probability,
            access_count: self.access_count,
            last_accessed: self.last_accessed,
        }
    }
}

/// Low probability alone is reason to prune, whatever the recency; long
/// inactivity alone is reason to prune, whatever the probability.
pub proof fn lemma_prune_conditions(
    probability: int,
    last_accessed: int,
    now: int,
    threshold: int,
    inactivity_days: int,
)
    ensures
        probability < threshold ==> should_prune_spec(
            probability,
            last_accessed,
            now,
            threshold,
            inactivity_days,
        ),
        elapsed_ms_spec(now, last_accessed) > inactivity_ms_spec(inactivity_days)
            ==> should_prune_spec(probability, last_accessed, now, threshold, inactivity_days),
{
}

/// Repeated learning toward full probability climbs monotonically and
/// never exceeds 1.0: each step from a unit-interval probability toward
/// a target of `SCALE` lands at or above where it started and at or
/// below `SCALE`, and the remaining gap shrinks by the (clamped)
/// learning-rate fraction of itself — geometric convergence with ratio
/// one minus the rate, up to truncation.
pub proof fn lemma_learning_converges_upward(p: int, rate: int)
    requires
        0 <= p <= SCALE,
    ensures
        p <= learn_spec(p, SCALE as int, rate) <= SCALE,
        SCALE as int - learn_spec(p, SCALE as int, rate) == (SCALE - p) - crate::fixed::clamp_unit_spec(
            rate,
        ) * (SCALE - p) / SCALE as int,
{
    lemma_learn_bounds(p, SCALE as int, rate);
}

} // verus!
