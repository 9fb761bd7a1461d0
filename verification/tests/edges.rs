use phenix_db::{current_timestamp_ms, Edge, EntityId, SCALE};

#[test]
fn test_edge_creation() {
    let source = EntityId::new();
    let target = EntityId::new();
    let edge = Edge::new(source, target, "related_to".to_string(), 500_000, None);

    assert_eq!(edge.source_id, source);
    assert_eq!(edge.target_id, target);
    assert_eq!(edge.label, "related_to");
    assert_eq!(edge.weight, 500_000);
    assert_eq!(edge.probability, 500_000);
    assert_eq!(edge.get_access_count(), 0);
}

#[test]
fn edges_test_record_access() {
    let mut edge = Edge::new(
        EntityId::new(),
        EntityId::new(),
        "test".to_string(),
        500_000,
        None,
    );

    assert_eq!(edge.get_access_count(), 0);

    edge.record_access();
    assert_eq!(edge.get_access_count(), 1);

    edge.record_access();
    assert_eq!(edge.get_access_count(), 2);
}

#[test]
fn test_update_probability() {
    let mut edge = Edge::new(
        EntityId::new(),
        EntityId::new(),
        "test".to_string(),
        500_000,
        None,
    );

    // Update towards 0.8 with learning rate 0.1:
    // new = 0.5 + 0.1 * (0.8 - 0.5) = 0.53
    let new_prob = edge.update_probability(800_000, 100_000);
    assert_eq!(new_prob, 530_000);
    assert_eq!(edge.probability, new_prob);
}

#[test]
fn test_probability_bounds() {
    let mut edge = Edge::new(
        EntityId::new(),
        EntityId::new(),
        "test".to_string(),
        500_000,
        None,
    );

    // Try to update beyond bounds: the target clamps to 1.0.
    edge.update_probability(1_500_000, 500_000);
    assert!(edge.probability <= SCALE);
    assert_eq!(edge.probability, 750_000);

    // A negative target clamps to 0.0; the probability stays in range.
    edge.update_probability(-500_000, 500_000);
    assert!(edge.probability <= SCALE);
    assert_eq!(edge.probability, 375_000);
}

#[test]
fn test_should_prune_threshold() {
    let mut edge = Edge::new(
        EntityId::new(),
        EntityId::new(),
        "test".to_string(),
        5_000,
        None,
    );

    edge.probability = 5_000;

    // Should prune if below threshold.
    assert!(edge.should_prune(10_000, 30));

    // Should not prune if above threshold.
    edge.probability = 20_000;
    assert!(!edge.should_prune(10_000, 30));
}

#[test]
fn test_apply_decay() {
    let mut edge = Edge::new(
        EntityId::new(),
        EntityId::new(),
        "test".to_string(),
        1_000_000,
        None,
    );

    edge.probability = 1_000_000;

    // Simulate 1 day passing by setting last_accessed to 1 day ago.
    let one_day_ago = current_timestamp_ms() - (24 * 60 * 60 * 1000);
    edge.last_accessed = one_day_ago;

    // Apply decay with rate 0.01 per day: new = 1.0 * exp(-0.01) = 0.99
    let new_prob = edge.apply_decay(10_000);
    assert!((new_prob as i64 - 990_000).abs() < 10_000);
}

#[test]
fn decay_in_immediate_succession_is_a_no_op() {
    let mut edge = Edge::new(
        EntityId::new(),
        EntityId::new(),
        "test".to_string(),
        800_000,
        None,
    );
    let first = edge.apply_decay(10_000);
    let second = edge.apply_decay(10_000);
    assert_eq!(first, 800_000);
    assert_eq!(second, 800_000);
}

#[test]
fn prune_on_inactivity_regardless_of_probability() {
    let mut edge = Edge::new(
        EntityId::new(),
        EntityId::new(),
        "test".to_string(),
        1_000_000,
        None,
    );
    edge.probability = 1_000_000;
    edge.last_accessed = current_timestamp_ms() - 31 * 24 * 60 * 60 * 1000;
    assert!(edge.should_prune(10_000, 30));
}

#[test]
fn prune_on_probability_regardless_of_recency() {
    let mut edge = Edge::new(
        EntityId::new(),
        EntityId::new(),
        "test".to_string(),
        5_000,
        None,
    );
    edge.record_access();
    assert!(edge.should_prune(10_000, 30));
}

#[test]
fn learning_converges_monotonically_upward() {
    let mut edge = Edge::new(
        EntityId::new(),
        EntityId::new(),
        "test".to_string(),
        500_000,
        None,
    );
    let mut previous = edge.probability;
    for _ in 0..200 {
        let next = edge.update_probability(SCALE as i64, 100_000);
        assert!(next >= previous);
        assert!(next <= SCALE);
        previous = next;
    }
    assert!(previous >= 999_990);
}

#[test]
fn snapshot_materializes_counters() {
    let mut edge = Edge::new(
        EntityId::new(),
        EntityId::new(),
        "copy_me".to_string(),
        250_000,
        None,
    );
    edge.record_access();
    let copy = edge.snapshot();
    assert_eq!(copy.label, edge.label);
    assert_eq!(copy.probability, edge.probability);
    assert_eq!(copy.access_count, 1);
    // The copy shares no state with the original.
    edge.record_access();
    assert_eq!(copy.access_count, 1);
    assert_eq!(edge.access_count, 2);
}
