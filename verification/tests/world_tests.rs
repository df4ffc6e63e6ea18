use dao_game::world::{
    adaptive_budget, biome_from_index, biome_index, chunk_coords_around, chunk_targets_for_center,
    dominant_biome, grid_triangle_indices, should_keep_chunk_key, spawned_key_replaces, streaming_inflight_cap,
    visible_key_for, visible_keys_by_coord, BiomeKind, FrameLoad, TerrainChunkKey,
    TerrainChunkTarget, TerrainImpostorState, TerrainLodConfig, TerrainLodLevel, WorldChunkCoord,
    WorldMap, WorldSeed,
};

/// The small world of the streaming scenarios: radius 2 tiles, one tile per
/// chunk, tiles 2.5 units wide.
fn test_world() -> WorldMap {
    WorldMap::new(42, 2, 1, 4, 4)
}

const CELL_SIZE: f32 = 2.5;

fn camera_chunk(x: f32, z: f32) -> WorldChunkCoord {
    WorldChunkCoord {
        x: (x / CELL_SIZE).floor() as i32,
        z: (z / CELL_SIZE).floor() as i32,
    }
}

fn lod() -> TerrainLodConfig {
    TerrainLodConfig {
        high_radius: 1,
        low_radius: 1,
        preload_radius: 2,
    }
}

#[test]
fn chunk_targets_follow_signed_world_position() {
    let world_map = test_world();
    let targets = chunk_targets_for_center(&world_map, camera_chunk(-3.0, 3.2), lod());

    assert!(targets
        .iter()
        .any(|target| target.key.coord == WorldChunkCoord { x: -1, z: 0 }));
    assert!(targets
        .iter()
        .all(|target| world_map.chunk_mesh_tile_bounds(target.key.coord).is_some()));
}

#[test]
fn chunk_targets_prioritize_nearest_chunk() {
    let world_map = test_world();
    let targets = chunk_targets_for_center(&world_map, camera_chunk(0.2, 0.2), lod());

    assert_eq!(
        targets.first().map(|target| target.key.coord),
        Some(WorldChunkCoord { x: 0, z: 0 })
    );
}

#[test]
fn chunk_targets_for_center_match_camera_sampling() {
    let world_map = test_world();
    let center = camera_chunk(0.4, -0.6);

    assert_eq!(
        chunk_targets_for_center(&world_map, center, lod()),
        chunk_targets_for_center(&world_map, WorldChunkCoord { x: 0, z: -1 }, lod())
    );
}

#[test]
fn collision_targets_follow_player_position() {
    let world_map = test_world();
    let targets = chunk_coords_around(&world_map, camera_chunk(-1.8, 0.4), 1);

    assert_eq!(targets.first().copied(), Some(WorldChunkCoord { x: -1, z: 0 }));
    assert!(targets
        .iter()
        .all(|coord| world_map.chunk_mesh_tile_bounds(*coord).is_some()));
}

#[test]
fn adaptive_budget_scales_down_under_heavy_load() {
    assert_eq!(adaptive_budget(4, 1, FrameLoad::Normal), 4);
    assert_eq!(adaptive_budget(4, 1, FrameLoad::Strained), 2);
    assert_eq!(adaptive_budget(4, 1, FrameLoad::Overloaded), 1);
}

#[test]
fn inflight_cap_tracks_background_budget() {
    assert_eq!(streaming_inflight_cap(1), 6);
    assert_eq!(streaming_inflight_cap(3), 9);
}

#[test]
fn keep_old_lod_visible_until_replacement_is_spawned() {
    let coord = WorldChunkCoord { x: 2, z: -1 };
    let low_key = TerrainChunkKey {
        coord,
        lod: TerrainLodLevel::Low,
    };
    let high_key = TerrainChunkKey {
        coord,
        lod: TerrainLodLevel::High,
    };

    assert!(should_keep_chunk_key(
        low_key,
        &vec![high_key],
        &vec![(coord, high_key)],
        &vec![low_key],
    ));
}

#[test]
fn old_lod_is_not_kept_after_replacement_has_spawned() {
    let coord = WorldChunkCoord { x: 2, z: -1 };
    let low_key = TerrainChunkKey {
        coord,
        lod: TerrainLodLevel::Low,
    };
    let high_key = TerrainChunkKey {
        coord,
        lod: TerrainLodLevel::High,
    };

    assert!(!should_keep_chunk_key(
        low_key,
        &vec![high_key],
        &vec![(coord, high_key)],
        &vec![low_key, high_key],
    ));
}

#[test]
fn world_seed_resource_wraps_seed_value() {
    assert_eq!(WorldSeed(511).0, 511);
}

#[test]
fn chunk_keys_without_a_drawn_replacement_are_dropped() {
    let coord = WorldChunkCoord { x: 0, z: 3 };
    let stale = TerrainChunkKey {
        coord,
        lod: TerrainLodLevel::Preload,
    };
    assert!(!should_keep_chunk_key(stale, &vec![], &vec![], &vec![stale]));
    assert!(should_keep_chunk_key(stale, &vec![stale], &vec![], &vec![]));
    assert!(should_keep_chunk_key(stale, &vec![], &vec![(coord, stale)], &vec![stale]));
}

#[test]
fn chunk_bounds_clip_to_the_world_edge() {
    let world_map = WorldMap::new(7, 5, 4, 2, 3);
    assert_eq!(
        world_map.chunk_mesh_tile_bounds(WorldChunkCoord { x: 0, z: 0 }),
        Some((0, 4, 0, 4))
    );
    assert_eq!(
        world_map.chunk_mesh_tile_bounds(WorldChunkCoord { x: 1, z: -2 }),
        Some((4, 5, -5, -4))
    );
    assert_eq!(
        world_map.chunk_mesh_tile_bounds(WorldChunkCoord { x: 2, z: 0 }),
        None
    );
}

#[test]
fn world_layout_raises_settings_to_at_least_one() {
    let world_map = WorldMap::new(9, 0, -3, 0, 40);
    assert_eq!(world_map.radius(), 1);
    assert_eq!(world_map.chunk_radius(), 1);
    assert_eq!(world_map.subdivisions(), 1);
    assert_eq!(world_map.showcase_search_radius(), 1);
    assert_eq!(world_map.seed_value(), 9);
    assert!(world_map.tile_in_bounds(-1, 1));
    assert!(!world_map.tile_in_bounds(2, 0));
}

#[test]
fn chunk_targets_carry_level_of_detail_by_ring() {
    let world_map = WorldMap::new(1, 8, 1, 4, 4);
    let config = TerrainLodConfig {
        high_radius: 0,
        low_radius: 1,
        preload_radius: 2,
    };
    let targets = chunk_targets_for_center(&world_map, WorldChunkCoord { x: 0, z: 0 }, config);
    assert_eq!(targets.len(), 25);
    let at = |x: i32, z: i32| -> TerrainChunkTarget {
        *targets
            .iter()
            .find(|target| target.key.coord == WorldChunkCoord { x, z })
            .expect("chunk listed")
    };
    assert_eq!(at(0, 0).key.lod, TerrainLodLevel::High);
    assert!(at(0, 0).visible);
    assert_eq!(at(1, -1).key.lod, TerrainLodLevel::Low);
    assert_eq!(at(-2, 1).key.lod, TerrainLodLevel::Preload);
    assert!(!at(-2, 1).visible);
    // nearest first, ties row by row, then along the row
    let order: Vec<(i32, i32)> = targets
        .iter()
        .take(5)
        .map(|target| (target.key.coord.x, target.key.coord.z))
        .collect();
    assert_eq!(order, vec![(0, 0), (0, -1), (-1, 0), (1, 0), (0, 1)]);
}

#[test]
fn negative_preload_radius_needs_no_chunks() {
    let world_map = test_world();
    let config = TerrainLodConfig {
        high_radius: 1,
        low_radius: 1,
        preload_radius: -1,
    };
    assert!(chunk_targets_for_center(&world_map, WorldChunkCoord { x: 0, z: 0 }, config).is_empty());
    assert!(chunk_coords_around(&world_map, WorldChunkCoord { x: 0, z: 0 }, -2).is_empty());
}

#[test]
fn impostor_refreshes_when_camera_leaves_its_rings() {
    let fresh = TerrainImpostorState { anchor: None };
    assert!(fresh.should_refresh(WorldChunkCoord { x: 0, z: 0 }, 1));
    let built = TerrainImpostorState {
        anchor: Some(WorldChunkCoord { x: 3, z: -2 }),
    };
    assert!(!built.should_refresh(WorldChunkCoord { x: 4, z: -1 }, 1));
    assert!(built.should_refresh(WorldChunkCoord { x: 5, z: -2 }, 1));
    assert!(built.should_refresh(WorldChunkCoord { x: 4, z: -2 }, -7));
    assert!(!built.should_refresh(WorldChunkCoord { x: 3, z: -2 }, -7));
}

#[test]
fn dominant_biome_prefers_the_first_of_equal_counts() {
    assert_eq!(dominant_biome(&[0, 0, 0, 0, 0]), BiomeKind::Meadow);
    assert_eq!(dominant_biome(&[2, 5, 5, 1, 0]), BiomeKind::Meadow);
    assert_eq!(dominant_biome(&[0, 1, 2, 3, 9]), BiomeKind::Ridge);
    assert_eq!(dominant_biome(&[4, 0, 0, 0, 0]), BiomeKind::Water);
}

#[test]
fn biome_slots_round_trip() {
    for biome in [
        BiomeKind::Water,
        BiomeKind::Meadow,
        BiomeKind::Grove,
        BiomeKind::Steppe,
        BiomeKind::Ridge,
    ] {
        assert_eq!(biome_from_index(biome_index(biome)), biome);
    }
    assert_eq!(biome_from_index(17), BiomeKind::Ridge);
}

#[test]
fn last_drawn_target_names_the_key_of_a_chunk() {
    let coord = WorldChunkCoord { x: 1, z: 1 };
    let low = TerrainChunkKey {
        coord,
        lod: TerrainLodLevel::Low,
    };
    let high = TerrainChunkKey {
        coord,
        lod: TerrainLodLevel::High,
    };
    let other = TerrainChunkKey {
        coord: WorldChunkCoord { x: 0, z: 0 },
        lod: TerrainLodLevel::Preload,
    };
    let targets = vec![
        TerrainChunkTarget { key: low, visible: true },
        TerrainChunkTarget { key: other, visible: false },
        TerrainChunkTarget { key: high, visible: true },
    ];
    assert_eq!(visible_key_for(&targets, coord), Some(high));
    assert_eq!(visible_key_for(&targets, other.coord), None);
    assert_eq!(visible_keys_by_coord(&targets), vec![(coord, high)]);
    assert!(spawned_key_replaces(high, &targets, low));
    assert!(!spawned_key_replaces(low, &targets, high));
    assert!(!spawned_key_replaces(high, &targets, other));
}

#[test]
fn grid_triangles_wind_each_cell_the_same_way() {
    assert_eq!(grid_triangle_indices(1, 1), vec![0, 2, 1, 1, 2, 3]);
    assert_eq!(
        grid_triangle_indices(2, 1),
        vec![0, 3, 1, 1, 3, 4, 1, 4, 2, 2, 4, 5]
    );
    assert!(grid_triangle_indices(0, 5).is_empty());
    assert!(grid_triangle_indices(4, 0).is_empty());
    let indices = grid_triangle_indices(3, 2);
    assert_eq!(indices.len(), 36);
    assert!(indices.iter().all(|&index| index < 12));
    assert_eq!(&indices[18..24], &[4, 8, 5, 5, 8, 9]);
}
