use phenix_db::{ClusterId, EntityId, NodeId, ShardId};

#[test]
fn test_entity_id_creation() {
    let id1 = EntityId::new();
    let id2 = EntityId::new();
    assert_ne!(id1, id2, "EntityIds should be unique");
}

#[test]
fn test_node_id_creation() {
    let id1 = NodeId::new();
    let id2 = NodeId::new();
    assert_ne!(id1, id2, "NodeIds should be unique");
}

#[test]
fn test_shard_id_creation() {
    let id1 = ShardId::new();
    let id2 = ShardId::new();
    assert_ne!(id1, id2, "ShardIds should be unique");
}

#[test]
fn test_cluster_id_creation() {
    let id1 = ClusterId::new();
    let id2 = ClusterId::new();
    assert_ne!(id1, id2, "ClusterIds should be unique");
}

#[test]
fn entity_id_round_trips_through_uuid() {
    let uuid_value = uuid::Uuid::from_u128(0x0123_4567_89ab_cdef_0123_4567_89ab_cdef);
    let id = EntityId::from_uuid(uuid_value);
    assert_eq!(id.as_uuid(), uuid_value);
}

#[test]
fn entity_id_display_is_hyphenated_uuid() {
    let uuid_value = uuid::Uuid::from_u128(0xfedc_ba98_7654_3210_fedc_ba98_7654_3210);
    let id = EntityId::from_uuid(uuid_value);
    let text = id.display();
    assert_eq!(text.len(), 36);
    assert_eq!(text, uuid_value.to_string());
}
