use dao_game::streaming::{
    boot_stream_queue, keys_contain, next_stream_action, should_integrate_chunk, target_keys, ChunkCache,
    ChunkVisibilityState, StreamAction, StreamingQueue, TerrainCollisionProxy,
    TerrainStreamingQueue,
};
use dao_game::world::{
    TerrainChunkKey, TerrainChunkTarget, TerrainLodConfig, TerrainLodLevel, WorldChunkCoord,
    WorldMap,
};

fn key(x: i32, z: i32, lod: TerrainLodLevel) -> TerrainChunkKey {
    TerrainChunkKey {
        coord: WorldChunkCoord { x, z },
        lod,
    }
}

fn target(x: i32, z: i32) -> TerrainChunkTarget {
    TerrainChunkTarget {
        key: key(x, z, TerrainLodLevel::High),
        visible: true,
    }
}

#[test]
fn streaming_queue_deduplicates_and_drops_invisible_chunks() {
    let high = TerrainLodLevel::High;
    let mut queue = TerrainStreamingQueue::from_targets(&[target(0, 0), target(0, 0), target(1, 0)]);
    let visible = vec![key(1, 0, high)];
    queue.retain_targets(&visible);
    queue.enqueue_missing(&[target(1, 0), target(2, 0)], &[key(2, 0, high)]);

    assert_eq!(queue.len(), 1);
    assert_eq!(
        queue.pop_next().map(|target| target.key.coord),
        Some(WorldChunkCoord { x: 1, z: 0 })
    );
    assert_eq!(queue.len(), 0);
}

#[test]
fn terrain_chunk_cache_reuses_uploaded_mesh_handles() {
    let mut cache: ChunkCache<TerrainChunkKey, u32> = ChunkCache::new();
    let chunk = key(0, 0, TerrainLodLevel::High);
    cache.insert(chunk, 41);
    let second = cache.get(chunk).expect("chunk should be cached");

    assert_eq!(second, 41);
    assert_eq!(cache.len(), 1);
}

#[test]
fn terrain_chunk_cache_evicts_inactive_oldest_entries() {
    let mut cache: ChunkCache<TerrainChunkKey, u32> = ChunkCache::new();
    let active = key(0, 0, TerrainLodLevel::High);
    for (index, chunk) in [
        active,
        key(1, 0, TerrainLodLevel::High),
        key(0, 1, TerrainLodLevel::Low),
    ]
    .into_iter()
    .enumerate()
    {
        cache.insert(chunk, index as u32);
    }

    let evicted = cache.evict_inactive(1, &[active]);

    assert_eq!(evicted.len(), 2);
    assert_eq!(cache.len(), 1);
    assert!(cache.contains_key(active));
}

#[test]
fn cache_evicts_least_recently_used_first() {
    let mut cache: ChunkCache<WorldChunkCoord, &'static str> = ChunkCache::new();
    let a = WorldChunkCoord { x: 0, z: 0 };
    let b = WorldChunkCoord { x: 1, z: 0 };
    let c = WorldChunkCoord { x: 2, z: 0 };
    cache.insert(a, "a");
    cache.insert(b, "b");
    cache.insert(c, "c");
    assert_eq!(cache.get(a), Some("a"));
    assert_eq!(cache.get(WorldChunkCoord { x: 9, z: 9 }), None);

    let evicted = cache.evict_inactive(2, &[]);
    assert_eq!(evicted.len(), 1);
    assert_eq!(evicted[0].key, b);
    assert_eq!(evicted[0].value, "b");
    assert!(cache.contains_key(a));
    assert!(cache.contains_key(c));
    assert_eq!(cache.keys(), vec![a, c]);
}

#[test]
fn cache_stays_over_capacity_rather_than_drop_active_chunks() {
    let mut cache: ChunkCache<WorldChunkCoord, u8> = ChunkCache::new();
    let a = WorldChunkCoord { x: 0, z: 0 };
    let b = WorldChunkCoord { x: 0, z: 1 };
    let c = WorldChunkCoord { x: 0, z: 2 };
    cache.insert(a, 1);
    cache.insert(b, 2);
    cache.insert(c, 3);
    let evicted = cache.evict_inactive(0, &[a, b]);
    assert_eq!(evicted.len(), 1);
    assert_eq!(cache.len(), 2);
    let nothing = cache.evict_inactive(5, &[]);
    assert!(nothing.is_empty());
    assert_eq!(cache.len(), 2);
}

#[test]
fn cache_insert_replaces_the_value_under_a_key() {
    let mut cache: ChunkCache<WorldChunkCoord, u8> = ChunkCache::new();
    let a = WorldChunkCoord { x: 4, z: 4 };
    cache.insert(a, 1);
    cache.insert(a, 2);
    assert_eq!(cache.len(), 1);
    assert_eq!(cache.get(a), Some(2));
}

#[test]
fn queue_pops_in_first_in_first_out_order() {
    let mut queue: StreamingQueue<WorldChunkCoord> = StreamingQueue::new();
    let a = WorldChunkCoord { x: 0, z: 0 };
    let b = WorldChunkCoord { x: 5, z: -1 };
    queue.enqueue_missing(&[b, a, b], &[]);
    assert_eq!(queue.len(), 2);
    assert_eq!(queue.pop_next(), Some(b));
    assert_eq!(queue.pop_next(), Some(a));
    assert_eq!(queue.pop_next(), None);
}

#[test]
fn scheduling_pass_follows_spawn_flight_and_cache() {
    let drawn = target(0, 0);
    let preload = TerrainChunkTarget {
        key: key(3, 3, TerrainLodLevel::Preload),
        visible: false,
    };
    let fresh = target(5, 5);
    let spawned = target(1, 1);
    let mut queue = TerrainStreamingQueue::from_targets(&[spawned, drawn, preload, fresh]);
    let mut cache: ChunkCache<TerrainChunkKey, u32> = ChunkCache::new();
    cache.insert(drawn.key, 70);
    cache.insert(preload.key, 80);
    let existing = [spawned.key];

    assert!(matches!(
        next_stream_action(&mut queue, &mut cache, &existing, &[], 2, 2, 6),
        StreamAction::Idle
    ));
    assert!(matches!(
        next_stream_action(&mut queue, &mut cache, &existing, &[fresh.key; 6], 0, 2, 6),
        StreamAction::Idle
    ));
    assert_eq!(queue.len(), 4);
    assert!(matches!(
        next_stream_action(&mut queue, &mut cache, &existing, &[], 0, 2, 6),
        StreamAction::Skip(t) if t == spawned
    ));
    assert!(matches!(
        next_stream_action(&mut queue, &mut cache, &existing, &[], 0, 2, 6),
        StreamAction::SpawnCached(t, 70) if t == drawn
    ));
    assert!(matches!(
        next_stream_action(&mut queue, &mut cache, &existing, &[], 0, 2, 6),
        StreamAction::Skip(t) if t == preload
    ));
    assert!(matches!(
        next_stream_action(&mut queue, &mut cache, &existing, &[], 0, 2, 6),
        StreamAction::Request(t) if t == fresh
    ));
    assert!(matches!(
        next_stream_action(&mut queue, &mut cache, &existing, &[], 0, 2, 6),
        StreamAction::Idle
    ));
}

#[test]
fn finished_chunks_integrate_only_while_needed() {
    let active = vec![target(0, 0), target(1, 0)];
    assert!(should_integrate_chunk(active[1].key, &active, &[]));
    assert!(!should_integrate_chunk(active[1].key, &active, &[active[1].key]));
    assert!(!should_integrate_chunk(key(7, 7, TerrainLodLevel::High), &active, &[]));
    assert!(keys_contain(&target_keys(&active), active[0].key));
}

#[test]
fn collision_proxy_retargets_once_per_anchor() {
    let mut proxy: TerrainCollisionProxy<u16> = TerrainCollisionProxy::new();
    let a = WorldChunkCoord { x: 0, z: 0 };
    let b = WorldChunkCoord { x: 1, z: 0 };
    let c = WorldChunkCoord { x: 2, z: 0 };
    proxy.insert_chunk(b, 11);
    proxy.retarget(a, vec![a, b]);
    assert_eq!(proxy.anchor, Some(a));
    assert_eq!(proxy.active, vec![a, b]);
    assert_eq!(proxy.pop_next(), Some(a));
    assert_eq!(proxy.pop_next(), None);

    proxy.enqueue_missing(&[c], &[]);
    proxy.retarget(a, vec![c]);
    assert_eq!(proxy.active, vec![a, b]);
    proxy.retarget(b, vec![b]);
    assert_eq!(proxy.pop_next(), None);
    assert_eq!(proxy.get_chunk(b), Some(11));
    assert_eq!(proxy.evict_inactive(0, &[b]), 0);
    assert_eq!(proxy.len(), 1);
    proxy.retain_active(&[]);
}

#[test]
fn camera_visibility_queues_missing_chunks_nearest_first() {
    let world_map = WorldMap::new(3, 8, 1, 2, 4);
    let lod = TerrainLodConfig {
        high_radius: 0,
        low_radius: 1,
        preload_radius: 1,
    };
    let mut state = ChunkVisibilityState::new();
    let mut queue = TerrainStreamingQueue::new();
    let center = WorldChunkCoord { x: 0, z: 0 };
    let spawned = vec![key(0, 0, TerrainLodLevel::High)];
    assert!(state.follow_camera(&world_map, center, lod, &mut queue, &spawned));
    assert_eq!(state.active.len(), 9);
    assert_eq!(queue.len(), 8);
    assert_eq!(
        queue.pop_next().map(|target| target.key),
        Some(key(0, -1, TerrainLodLevel::Low))
    );
    assert!(!state.follow_camera(&world_map, center, lod, &mut queue, &spawned));
    assert_eq!(queue.len(), 7);
}

#[test]
fn collision_build_pass_skips_built_and_in_flight_chunks() {
    let mut proxy: TerrainCollisionProxy<u8> = TerrainCollisionProxy::new();
    let a = WorldChunkCoord { x: 0, z: 0 };
    let b = WorldChunkCoord { x: 1, z: 0 };
    let c = WorldChunkCoord { x: 0, z: 1 };
    proxy.retarget(a, vec![a, b, c]);
    assert!(proxy.integrate_built_chunk(a, 1));
    assert!(!proxy.integrate_built_chunk(WorldChunkCoord { x: 9, z: 9 }, 2));
    assert_eq!(proxy.len(), 1);

    assert!(matches!(proxy.next_build(&[], 1, 1), StreamAction::Idle));
    assert!(matches!(proxy.next_build(&[], 0, 1), StreamAction::Skip(coord) if coord == a));
    assert!(matches!(proxy.next_build(&[b], 0, 1), StreamAction::Skip(coord) if coord == b));
    assert!(matches!(proxy.next_build(&[b], 0, 1), StreamAction::Request(coord) if coord == c));
    assert!(matches!(proxy.next_build(&[], 0, 1), StreamAction::Idle));
}

#[test]
fn offering_the_same_targets_twice_queues_nothing_more() {
    let mut queue = TerrainStreamingQueue::new();
    let offered = [target(0, 0), target(1, 0), target(0, 0), target(2, 2)];
    queue.enqueue_missing(&offered, &[key(2, 2, TerrainLodLevel::High)]);
    assert_eq!(queue.len(), 2);
    queue.enqueue_missing(&offered, &[key(2, 2, TerrainLodLevel::High)]);
    assert_eq!(queue.len(), 2);
}

#[test]
fn requeued_camera_waits_only_for_needed_chunks() {
    let world_map = WorldMap::new(3, 8, 1, 2, 4);
    let lod = TerrainLodConfig {
        high_radius: 1,
        low_radius: 2,
        preload_radius: 2,
    };
    let mut state = ChunkVisibilityState::new();
    let mut queue = TerrainStreamingQueue::new();
    state.follow_camera(&world_map, WorldChunkCoord { x: 0, z: 0 }, lod, &mut queue, &[]);
    state.follow_camera(&world_map, WorldChunkCoord { x: 3, z: 0 }, lod, &mut queue, &[]);
    let needed = target_keys(&state.active);
    let mut waiting = Vec::new();
    while let Some(target) = queue.pop_next() {
        waiting.push(target.key);
    }
    assert!(!waiting.is_empty());
    assert!(waiting.iter().all(|key| needed.contains(key)));
    let mut unique = waiting.clone();
    unique.dedup();
    assert_eq!(unique.len(), waiting.len());
}

#[test]
fn collision_proxy_trims_to_capacity_exactly() {
    let mut proxy: TerrainCollisionProxy<u8> = TerrainCollisionProxy::new();
    let coords: Vec<WorldChunkCoord> = (0..5).map(|x| WorldChunkCoord { x, z: 0 }).collect();
    for (value, coord) in coords.iter().enumerate() {
        proxy.insert_chunk(*coord, value as u8);
    }
    assert_eq!(proxy.get_chunk(coords[0]), Some(0));
    assert_eq!(proxy.evict_inactive(2, &[coords[4]]), 3);
    assert_eq!(proxy.len(), 2);
    assert_eq!(proxy.chunks.keys(), vec![coords[0], coords[4]]);
    assert_eq!(proxy.evict_inactive(1, &[coords[0], coords[4]]), 0);
    assert_eq!(proxy.evict_inactive(0, &[coords[4]]), 1);
    assert_eq!(proxy.chunks.keys(), vec![coords[4]]);
}

#[test]
fn boot_queue_leaves_out_the_chunk_built_at_start() {
    let boot = WorldChunkCoord { x: 0, z: 0 };
    let near = TerrainChunkTarget {
        key: key(1, 0, TerrainLodLevel::High),
        ..target(1, 0)
    };
    let own = TerrainChunkTarget {
        key: key(0, 0, TerrainLodLevel::High),
        ..target(0, 0)
    };
    let coarse = TerrainChunkTarget {
        key: key(0, 0, TerrainLodLevel::Low),
        ..target(0, 0)
    };
    let targets = vec![own, near, coarse, near];
    let mut queue = boot_stream_queue(&targets, Some(boot));
    assert_eq!(queue.len(), 2);
    assert_eq!(queue.pop_next(), Some(near));
    assert_eq!(queue.pop_next(), Some(coarse));
    let mut whole = boot_stream_queue(&targets, None);
    assert_eq!(whole.len(), 3);
    assert_eq!(whole.pop_next(), Some(own));
}
