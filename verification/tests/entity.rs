use phenix_db::{current_timestamp_ms, AccessStatistics, Entity, EntityId, MemoryTier, Vector};
use std::time::Duration;

fn sample_metadata() -> serde_json::Value {
    let mut map = serde_json::Map::new();
    map.insert(
        "key".to_string(),
        serde_json::Value::String("value".to_string()),
    );
    serde_json::Value::Object(map)
}

#[test]
fn test_entity_creation() {
    let vector = Vector::new(vec![1, 2, 3]).unwrap();
    let metadata = sample_metadata();

    let entity = Entity::new(Some(vector), Some(metadata), None);

    assert!(entity.vector.is_some());
    assert!(entity.metadata.is_some());
    assert_eq!(entity.version, 1);
    assert_eq!(entity.tier, MemoryTier::Hot);
    assert_eq!(entity.access_statistics.total_accesses, 0);
}

#[test]
fn entity_test_record_access() {
    let mut entity = Entity::new(None, None, None);

    assert_eq!(entity.access_statistics.total_accesses, 0);

    entity.record_access();
    assert_eq!(entity.access_statistics.total_accesses, 1);

    entity.record_access();
    assert_eq!(entity.access_statistics.total_accesses, 2);
}

#[test]
fn test_tier_promotion() {
    let mut entity = Entity::new(None, None, None);
    entity.tier = MemoryTier::Cold;
    entity.access_statistics.access_frequency = 15_000_000; // above cold-to-warm

    assert!(entity.should_promote());

    entity.promote();
    assert_eq!(entity.tier, MemoryTier::Warm);

    entity.access_statistics.access_frequency = 150_000_000; // above warm-to-hot
    assert!(entity.should_promote());

    entity.promote();
    assert_eq!(entity.tier, MemoryTier::Hot);

    // Can't promote from hot.
    assert!(!entity.should_promote());
}

#[test]
fn test_tier_demotion() {
    let mut entity = Entity::new(None, None, None);
    entity.tier = MemoryTier::Hot;
    entity.access_statistics.access_frequency = 500_000; // below hot-to-warm

    // Simulate 24 hours passing.
    entity.access_statistics.last_access = current_timestamp_ms() - (24 * 60 * 60 * 1000);

    assert!(entity.should_demote());

    entity.demote();
    assert_eq!(entity.tier, MemoryTier::Warm);
}

#[test]
fn test_memory_tier_latency() {
    assert!(MemoryTier::Hot.latency_characteristics() < Duration::from_millis(1));
    assert!(MemoryTier::Warm.latency_characteristics() < Duration::from_millis(10));
    assert!(MemoryTier::Cold.latency_characteristics() < Duration::from_millis(100));
}

#[test]
fn latency_values_are_fixed_per_tier() {
    assert_eq!(
        MemoryTier::Hot.latency_characteristics(),
        Duration::from_micros(500)
    );
    assert_eq!(
        MemoryTier::Warm.latency_characteristics(),
        Duration::from_millis(5)
    );
    assert_eq!(
        MemoryTier::Cold.latency_characteristics(),
        Duration::from_millis(50)
    );
    assert!(MemoryTier::Hot.latency_characteristics() < MemoryTier::Warm.latency_characteristics());
    assert!(
        MemoryTier::Warm.latency_characteristics() < MemoryTier::Cold.latency_characteristics()
    );
}

#[test]
fn test_access_statistics() {
    let mut stats = AccessStatistics::new();

    assert_eq!(stats.total_accesses, 0);
    assert_eq!(stats.access_frequency, 0);

    stats.record_access();
    assert_eq!(stats.total_accesses, 1);

    // Test co-access recording.
    let entity_id = EntityId::new();
    stats.record_co_access(entity_id);
    assert_eq!(stats.co_access_entities.len(), 1);
    assert_eq!(stats.co_access_entities[0], entity_id);
}

#[test]
fn test_stagnant_detection() {
    let mut stats = AccessStatistics::new();

    // Simulate 90 days passing.
    stats.last_access = current_timestamp_ms() - (90 * 24 * 60 * 60 * 1000);

    assert!(stats.is_stagnant());
}

#[test]
fn promotion_boundary_is_inclusive() {
    let mut entity = Entity::new(None, None, None);
    entity.tier = MemoryTier::Cold;

    entity.access_statistics.access_frequency = 9_999_000; // 9.999 per hour
    assert!(!entity.should_promote());

    entity.access_statistics.access_frequency = 10_000_000; // exactly 10.0
    assert!(entity.should_promote());
}

#[test]
fn demotion_boundary_is_strict() {
    let mut entity = Entity::new(None, None, None);
    entity.tier = MemoryTier::Hot;
    entity.access_statistics.last_access = current_timestamp_ms() - (25 * 60 * 60 * 1000);

    entity.access_statistics.access_frequency = 1_000_000; // exactly 1.0: not below
    assert!(!entity.should_demote());

    entity.access_statistics.access_frequency = 999_999; // strictly below 1.0
    assert!(entity.should_demote());
}

#[test]
fn demotion_needs_idle_time_not_just_low_rate() {
    let mut entity = Entity::new(None, None, None);
    entity.tier = MemoryTier::Hot;
    entity.access_statistics.access_frequency = 0;
    entity.record_access(); // just accessed: no idle window yet
    assert!(!entity.should_demote());
}

#[test]
fn demotion_from_cold_never_happens() {
    let mut entity = Entity::new(None, None, None);
    entity.tier = MemoryTier::Cold;
    entity.access_statistics.access_frequency = 0;
    entity.access_statistics.last_access = current_timestamp_ms() - (400 * 24 * 60 * 60 * 1000);
    assert!(!entity.should_demote());
}

#[test]
fn co_access_history_caps_at_limit_and_evicts_fifo() {
    let mut stats = AccessStatistics::new();
    let mut ids = Vec::new();
    for _ in 0..101 {
        ids.push(EntityId::new());
    }
    for id in &ids {
        stats.record_co_access(*id);
    }
    // The 101st distinct id evicted the earliest-inserted one.
    assert_eq!(stats.co_access_entities.len(), 100);
    assert!(!stats.co_access_entities.contains(&ids[0]));
    assert_eq!(stats.co_access_entities[0], ids[1]);
    assert_eq!(stats.co_access_entities[99], ids[100]);
}

#[test]
fn co_access_history_ignores_duplicates() {
    let mut stats = AccessStatistics::new();
    let a = EntityId::new();
    let b = EntityId::new();
    stats.record_co_access(a);
    stats.record_co_access(b);
    stats.record_co_access(a);
    assert_eq!(stats.co_access_entities.len(), 2);
    assert_eq!(stats.co_access_entities[0], a);
    assert_eq!(stats.co_access_entities[1], b);
}

#[test]
fn record_access_bumps_version_and_updated_at() {
    let mut entity = Entity::new(None, None, None);
    let v0 = entity.version;
    entity.record_access();
    assert_eq!(entity.version, v0 + 1);
    entity.promote();
    assert_eq!(entity.version, v0 + 2);
}

#[test]
fn tier_thresholds_match_decisions() {
    assert_eq!(MemoryTier::Cold.promotion_threshold(), 10_000_000);
    assert_eq!(MemoryTier::Warm.promotion_threshold(), 100_000_000);
    assert_eq!(MemoryTier::Hot.promotion_threshold(), u64::MAX);
    assert_eq!(MemoryTier::Hot.demotion_threshold(), 1_000_000);
    assert_eq!(MemoryTier::Warm.demotion_threshold(), 100_000);
    assert_eq!(MemoryTier::Cold.demotion_threshold(), 0);
}

#[test]
fn entity_snapshot_shares_no_state() {
    let vector = Vector::new(vec![1, 2, 3]).unwrap();
    let mut entity = Entity::new(Some(vector), None, None);
    entity.record_access();
    let copy = entity.snapshot();
    assert_eq!(copy.id, entity.id);
    assert_eq!(copy.version, entity.version);
    assert_eq!(copy.access_statistics.total_accesses, 1);
    entity.record_access();
    assert_eq!(copy.access_statistics.total_accesses, 1);
    assert_eq!(entity.access_statistics.total_accesses, 2);
}

#[test]
fn frequency_rises_under_rapid_accesses() {
    let mut stats = AccessStatistics::new();
    stats.last_access = current_timestamp_ms() - 1000; // one second ago
    stats.record_access();
    // Instantaneous rate 3600/hour folded in with smoothing 0.1.
    assert!(stats.access_frequency > 0);
    assert!(stats.access_frequency <= 3_600_000_000_000);
}
