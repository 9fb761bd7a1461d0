use phenix_db::{Edge, Entity, EntityId, MemoryTier, Vector};

fn sample_metadata() -> serde_json::Value {
    let mut map = serde_json::Map::new();
    map.insert(
        "key".to_string(),
        serde_json::Value::String("value".to_string()),
    );
    serde_json::Value::Object(map)
}

#[test]
fn edge_record_round_trip() {
    let mut edge = Edge::new(
        EntityId::new(),
        EntityId::new(),
        "test".to_string(),
        500_000,
        Some(sample_metadata()),
    );

    edge.record_access();
    edge.record_access();

    let record = edge.to_record();
    let rebuilt = Edge::from_record(&record);

    assert_eq!(edge.source_id, rebuilt.source_id);
    assert_eq!(edge.target_id, rebuilt.target_id);
    assert_eq!(edge.label, rebuilt.label);
    assert_eq!(edge.probability, rebuilt.probability);
    assert_eq!(edge.get_access_count(), rebuilt.get_access_count());
    assert_eq!(edge.metadata, rebuilt.metadata);
}

#[test]
fn entity_record_round_trip() {
    let vector = Vector::new(vec![1, 2, 3]).unwrap();
    let entity = Entity::new(Some(vector), None, None);

    let record = entity.to_record();
    let rebuilt = Entity::from_record(&record);

    assert_eq!(entity.id, rebuilt.id);
    assert_eq!(entity.tier, rebuilt.tier);
    assert_eq!(entity.version, rebuilt.version);
    assert_eq!(entity.created_at, rebuilt.created_at);
    assert_eq!(entity.updated_at, rebuilt.updated_at);
    assert_eq!(
        entity.access_statistics.total_accesses,
        rebuilt.access_statistics.total_accesses
    );
    let original_vector = entity.vector.as_ref().unwrap();
    let rebuilt_vector = rebuilt.vector.as_ref().unwrap();
    assert_eq!(original_vector.values, rebuilt_vector.values);
    assert_eq!(original_vector.norm, rebuilt_vector.norm);
}

#[test]
fn entity_record_round_trip_with_edges() {
    let edge = Edge::new(
        EntityId::new(),
        EntityId::new(),
        "linked".to_string(),
        750_000,
        None,
    );
    let source = edge.source_id;
    let entity = Entity::new(None, None, Some(vec![edge]));

    let record = entity.to_record();
    let rebuilt = Entity::from_record(&record);

    let edges = rebuilt.edges.as_ref().unwrap();
    assert_eq!(edges.len(), 1);
    assert_eq!(edges[0].source_id, source);
    assert_eq!(edges[0].label, "linked");
    assert_eq!(edges[0].probability, 750_000);
}

#[test]
fn tier_enum_round_trips_through_records() {
    let mut entity = Entity::new(None, None, None);
    entity.tier = MemoryTier::Cold;
    let rebuilt = Entity::from_record(&entity.to_record());
    assert_eq!(rebuilt.tier, MemoryTier::Cold);
}
