use dao_game::physics::{
    fnv1a_64, forward_query_mask, gallery_layers, player_layers, selected_engine_summary,
    sensor_layers, static_world_layers, terrain_layers, unique_terrain_coords, DaoColliderRole,
    DaoColliderSource, DaoPhysicsLayer, DaoPhysicsTerrainCollider, PhysicsBodyKind,
    PhysicsColliderRule, PhysicsDebugState, PhysicsRoute, ProceduralCollision,
};

#[test]
fn collision_layers_allow_player_static_and_queries() {
    assert!(player_layers().interacts_with(static_world_layers()));
    assert_ne!(forward_query_mask().0 & DaoPhysicsLayer::StaticWorld.bit(), 0);
    assert_ne!(forward_query_mask().0 & DaoPhysicsLayer::Sensor.bit(), 0);
}

#[test]
fn procedural_collision_rules_upgrade_semantic_specs() {
    // a village house blocks, a well is an interaction proxy, a path stone
    // asked to be visual only gets no collider
    assert_eq!(
        PhysicsColliderRule::for_collision(ProceduralCollision::SimpleBlocker, false),
        PhysicsColliderRule::StaticCuboid
    );
    assert_eq!(
        PhysicsColliderRule::for_collision(ProceduralCollision::InteractionProxy, false),
        PhysicsColliderRule::InteractionSensor
    );
    assert_eq!(
        PhysicsColliderRule::for_collision(ProceduralCollision::VisualOnly, false),
        PhysicsColliderRule::NoCollider
    );
}

#[test]
fn selected_engine_summary_records_route() {
    let summary = selected_engine_summary();

    assert!(summary.contains("Avian"));
    assert!(summary.contains("Rapier"));
    assert!(summary.contains("Bevy 0.18"));
}

#[test]
fn cuboid_rule_uses_nonzero_extents() {
    // a market stall is an interaction proxy that is not a character
    let rule =
        PhysicsColliderRule::for_collision(ProceduralCollision::InteractionProxy, false);
    assert_eq!(rule, PhysicsColliderRule::InteractionSensor);
    assert!(rule.is_sensor());
}

#[test]
fn layer_bits_are_stable_and_distinct() {
    let bits = [
        DaoPhysicsLayer::Player.bit(),
        DaoPhysicsLayer::Terrain.bit(),
        DaoPhysicsLayer::StaticWorld.bit(),
        DaoPhysicsLayer::DynamicWorld.bit(),
        DaoPhysicsLayer::Sensor.bit(),
        DaoPhysicsLayer::Gallery.bit(),
    ];
    let mut unique = std::collections::HashSet::new();

    for bit in bits {
        assert!(unique.insert(bit));
    }
}

#[test]
fn collision_matrix_matches_layer_roles() {
    assert!(player_layers().interacts_with(terrain_layers()));
    assert!(player_layers().interacts_with(sensor_layers()));
    assert!(!sensor_layers().interacts_with(gallery_layers()));
    assert!(!terrain_layers().interacts_with(static_world_layers()));
    assert_eq!(
        player_layers().interacts_with(gallery_layers()),
        gallery_layers().interacts_with(player_layers())
    );
}

#[test]
fn character_proxies_become_kinematic_capsules() {
    let rule = PhysicsColliderRule::for_collision(ProceduralCollision::InteractionProxy, true);
    assert_eq!(rule, PhysicsColliderRule::CharacterCapsule);
    assert_eq!(rule.rigid_body(), PhysicsBodyKind::Kinematic);
    assert_eq!(rule.role(), Some(DaoColliderRole::DynamicBody));
    let collider = PhysicsColliderRule::StaticCuboid
        .procedural_collider()
        .expect("collider");
    assert_eq!(collider.layer, DaoPhysicsLayer::StaticWorld);
    assert_eq!(collider.source, DaoColliderSource::ProceduralAsset);
    assert!(PhysicsColliderRule::NoCollider.procedural_collider().is_none());
}

#[test]
fn fnv1a_matches_reference_values() {
    assert_eq!(fnv1a_64(b""), 0xcbf2_9ce4_8422_2325);
    assert_eq!(fnv1a_64(b"a"), 0xaf63_dc4c_8601_ec8c);
    assert_eq!(fnv1a_64(b"foobar"), 0x8594_4171_f739_67e8);
}

#[test]
fn terrain_colliders_are_counted_once_per_chunk() {
    let colliders = [
        DaoPhysicsTerrainCollider { x: 1, z: 2 },
        DaoPhysicsTerrainCollider { x: -1, z: 0 },
        DaoPhysicsTerrainCollider { x: 1, z: 2 },
    ];
    assert_eq!(unique_terrain_coords(&colliders), vec![(1, 2), (-1, 0)]);
}

#[test]
fn default_route_keeps_three_notes() {
    let route = PhysicsRoute::default();
    assert_eq!(route.notes.len(), 3);
    assert!(route.notes[0].contains("Rapier"));
}

#[test]
fn debug_switch_reads_any_case() {
    assert!(!PhysicsDebugState::from_switch(None).enabled);
    assert!(!PhysicsDebugState::from_switch(Some("0")).enabled);
    assert!(!PhysicsDebugState::from_switch(Some("FaLsE")).enabled);
    assert!(!PhysicsDebugState::from_switch(Some("OFF")).enabled);
    assert!(PhysicsDebugState::from_switch(Some("1")).enabled);
    assert!(PhysicsDebugState::from_switch(Some("")).enabled);
    assert!(PhysicsDebugState::from_switch(Some("offf")).enabled);
}
