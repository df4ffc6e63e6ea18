//! The world grid: biomes, tile and chunk coordinates, chunk bounds, level
//! of detail and the chunks the camera and the player need.

use vstd::prelude::*;

verus! {

/// The biome of a terrain tile.
#[derive(Debug, Clone, Copy, PartialEq, Eq, Structural)]
pub enum BiomeKind {
    Water,
    Meadow,
    Grove,
    Steppe,
    Ridge,
}

/// Slot of a biome in a per-biome count table.
pub open spec fn biome_slot(biome: BiomeKind) -> int {
    match biome {
        BiomeKind::Water => 0,
        BiomeKind::Meadow => 1,
        BiomeKind::Grove => 2,
        BiomeKind::Steppe => 3,
        BiomeKind::Ridge => 4,
    }
}

/// The biome of a count-table slot; every slot past the last is a ridge.
pub open spec fn biome_at_slot(index: int) -> BiomeKind {
    if index == 0 {
        BiomeKind::Water
    } else if index == 1 {
        BiomeKind::Meadow
    } else if index == 2 {
        BiomeKind::Grove
    } else if index == 3 {
        BiomeKind::Steppe
    } else {
        BiomeKind::Ridge
    }
}

/// Slot of a biome in a per-biome count table.
pub fn biome_index(biome: BiomeKind) -> (r: usize)
    ensures
        r == biome_slot(biome),
{
    match biome {
        BiomeKind::Water => 0,
        BiomeKind::Meadow => 1,
        BiomeKind::Grove => 2,
        BiomeKind::Steppe => 3,
        BiomeKind::Ridge => 4,
    }
}

/// The biome of a count-table slot.
pub fn biome_from_index(index: usize) -> (r: BiomeKind)
    ensures
        r == biome_at_slot(index as int),
{
    match index {
        0 => BiomeKind::Water,
        1 => BiomeKind::Meadow,
        2 => BiomeKind::Grove,
        3 => BiomeKind::Steppe,
        _ => BiomeKind::Ridge,
    }
}

/// Slots and biomes correspond one to one: a biome's slot leads back to the
/// biome, and each of the five slots to a biome with that slot.
pub proof fn lemma_biome_slots_round_trip(biome: BiomeKind, index: int)
    ensures
        biome_at_slot(biome_slot(biome)) == biome,
        0 <= biome_slot(biome) < 5,
        0 <= index < 5 ==> biome_slot(biome_at_slot(index)) == index,
{
}

/// The biome that covers most tiles of a chunk, given its per-biome tile
/// counts.
pub fn dominant_biome(counts: &[u32; 5]) -> (r: BiomeKind)
    ensures
        (forall|i: int| 0 <= i < 5 ==> counts@[i] == 0) ==> r == BiomeKind::Meadow,
        (exists|i: int| 0 <= i < 5 && counts@[i] > 0) ==> exists|i: int|
            0 <= i < 5 && r == biome_at_slot(i) && counts@[i] > 0 && (forall|j: int|
                0 <= j < 5 ==> counts@[j] <= counts@[i]) && (forall|j: int|
                0 <= j < i ==> counts@[j] < counts@[i]),
{
    let mut dominant = BiomeKind::Meadow;
    let mut best: u32 = 0;
    let mut best_index: usize = 5;
    let mut index: usize = 0;
    while index < 5
        invariant
            index <= 5,
            best_index <= 5,
            best_index == 5 ==> best == 0 && dominant == BiomeKind::Meadow,
            best_index == 5 ==> forall|j: int| 0 <= j < index ==> counts@[j] == 0,
            best_index < 5 ==> {
                &&& best_index < index
                &&& best == counts@[best_index as int]
                &&& best > 0
                &&& dominant == biome_at_slot(best_index as int)
                &&& forall|j: int| 0 <= j < index ==> counts@[j] <= best
                &&& forall|j: int| 0 <= j < best_index ==> counts@[j] < best
            },
        decreases 5 - index,
    {
        let count = counts[index];
        assert(count == counts@[index as int]);
        if count > best {
            best = count;
            best_index = index;
            dominant = biome_from_index(index);
        }
        index = index + 1;
    }
    if best_index < 5 {
        assert(counts@[best_index as int] > 0);
    }
    dominant
}

/// The seed a world session was generated from.
#[derive(Debug, Clone, Copy, PartialEq, Eq, Structural)]
pub struct WorldSeed(pub u64);

/// A tile position on the world grid.
#[derive(Debug, Clone, Copy, PartialEq, Eq, Structural)]
pub struct WorldGridCoord {
    pub x: i32,
    pub z: i32,
}

/// A chunk position on the world grid.
#[derive(Debug, Clone, Copy, PartialEq, Eq, Structural)]
pub struct WorldChunkCoord {
    pub x: i32,
    pub z: i32,
}

/// The integer layout of a world: its seed, how far its tiles reach from
/// the center, how many tiles a chunk spans, how finely each tile is
/// meshed and how far showcase spots are searched.
#[derive(Debug, Clone, Copy, PartialEq, Eq, Structural)]
pub struct WorldMap {
    seed: u64,
    radius: i32,
    showcase_search_radius: i32,
    chunk_radius: i32,
    subdivisions: u32,
}

/// The larger of two integers.
pub open spec fn max_int(a: int, b: int) -> int {
    if a >= b {
        a
    } else {
        b
    }
}

/// The smaller of two integers.
pub open spec fn min_int(a: int, b: int) -> int {
    if a <= b {
        a
    } else {
        b
    }
}

impl WorldMap {
    /// The seed of the world.
    pub closed spec fn seed_spec(self) -> u64 {
        self.seed
    }

    /// Tiles reach from `-radius` to `radius` on each axis.
    pub closed spec fn radius_spec(self) -> int {
        self.radius as int
    }

    /// Tiles per chunk edge.
    pub closed spec fn chunk_radius_spec(self) -> int {
        self.chunk_radius as int
    }

    /// Mesh subdivisions per tile.
    pub closed spec fn subdivisions_spec(self) -> u32 {
        self.subdivisions
    }

    /// How far showcase spots are searched, in tiles.
    pub closed spec fn showcase_radius_spec(self) -> int {
        self.showcase_search_radius as int
    }

    /// Every world reaches at least one tile out, spans at least one tile
    /// per chunk, meshes each tile at least once and searches showcase spots
    /// at least one tile out but never beyond the world.
    pub open spec fn well_formed(self) -> bool {
        &&& 1 <= self.radius_spec() <= i32::MAX
        &&& 1 <= self.chunk_radius_spec() <= i32::MAX
        &&& self.subdivisions_spec() >= 1
        &&& 1 <= self.showcase_radius_spec() <= self.radius_spec()
    }

    #[verifier::type_invariant]
    closed spec fn layout_invariant(self) -> bool {
        &&& self.radius >= 1
        &&& self.chunk_radius >= 1
        &&& self.subdivisions >= 1
        &&& 1 <= self.showcase_search_radius <= self.radius
    }


    /// Lays out a world from its configuration; every setting is raised to
    /// at least one and the showcase search never reaches past the world.
    pub fn new(
        seed: u64,
        world_radius: i32,
        chunk_radius: i32,
        terrain_subdivisions: u32,
        showcase_search_radius: i32,
    ) -> (r: Self)
        ensures
            r.well_formed(),
            r.seed_spec() == seed,
            r.radius_spec() == max_int(world_radius as int, 1),
            r.chunk_radius_spec() == max_int(chunk_radius as int, 1),
            r.subdivisions_spec() == max_int(terrain_subdivisions as int, 1),
            r.showcase_radius_spec() == min_int(
                max_int(showcase_search_radius as int, 1),
                max_int(world_radius as int, 1),
            ),
    {
        let radius = if world_radius < 1 {
            1
        } else {
            world_radius
        };
        let chunk = if chunk_radius < 1 {
            1
        } else {
            chunk_radius
        };
        let subdivisions = if terrain_subdivisions < 1 {
            1
        } else {
            terrain_subdivisions
        };
        let showcase_floor = if showcase_search_radius < 1 {
            1
        } else {
            showcase_search_radius
        };
        let showcase = if showcase_floor > radius {
            radius
        } else {
            showcase_floor
        };
        WorldMap {
            seed,
            radius,
            showcase_search_radius: showcase,
            chunk_radius: chunk,
            subdivisions,
        }
    }

    /// Tiles reach from `-radius` to `radius` on each axis.
    pub fn radius(&self) -> (r: i32)
        ensures
            r == self.radius_spec(),
    {
        self.radius
    }

    /// The seed of the world.
    pub fn seed_value(&self) -> (r: u64)
        ensures
            r == self.seed_spec(),
    {
        self.seed
    }

    /// How far showcase spots are searched, in tiles.
    pub fn showcase_search_radius(&self) -> (r: i32)
        ensures
            r == self.showcase_radius_spec(),
    {
        self.showcase_search_radius
    }

    /// Tiles per chunk edge.
    pub fn chunk_radius(&self) -> (r: i32)
        ensures
            r == self.chunk_radius_spec(),
    {
        self.chunk_radius
    }

    /// Mesh subdivisions per tile.
    pub fn subdivisions(&self) -> (r: u32)
        ensures
            r == self.subdivisions_spec(),
    {
        self.subdivisions
    }

    /// A tile lies on the world grid.
    pub open spec fn tile_inside(self, x: int, z: int) -> bool {
        -self.radius_spec() <= x <= self.radius_spec() && -self.radius_spec() <= z
            <= self.radius_spec()
    }

    /// Whether a tile lies on the world grid.
    pub fn tile_in_bounds(&self, x: i32, z: i32) -> (r: bool)
        ensures
            r == self.tile_inside(x as int, z as int),
    {
        proof {
            use_type_invariant(self);
        }
        !(x < -self.radius || x > self.radius || z < -self.radius || z > self.radius)
    }

    /// The tiles a chunk covers, clipped to the world: the chunk at `c`
    /// nominally spans tiles `c * chunk_radius` to `(c + 1) * chunk_radius`
    /// on each axis; a chunk with nothing left after clipping covers none.
    pub open spec fn chunk_bounds(self, coord: WorldChunkCoord) -> Option<(int, int, int, int)> {
        let raw_x_min = coord.x * self.chunk_radius_spec();
        let raw_z_min = coord.z * self.chunk_radius_spec();
        let x_min = max_int(raw_x_min, -self.radius_spec());
        let z_min = max_int(raw_z_min, -self.radius_spec());
        let x_max = min_int(raw_x_min + self.chunk_radius_spec(), self.radius_spec());
        let z_max = min_int(raw_z_min + self.chunk_radius_spec(), self.radius_spec());
        if x_min >= x_max || z_min >= z_max {
            None
        } else {
            Some((x_min, x_max, z_min, z_max))
        }
    }

    /// The tiles `(x_min, x_max, z_min, z_max)` a chunk covers, clipped to
    /// the world, or `None` for a chunk outside it.
    pub fn chunk_mesh_tile_bounds(&self, coord: WorldChunkCoord) -> (r: Option<(i32, i32, i32, i32)>)
        ensures
            match self.chunk_bounds(coord) {
                None => r is None,
                Some((x_min, x_max, z_min, z_max)) => r == Some(
                    (x_min as i32, x_max as i32, z_min as i32, z_max as i32),
                ),
            },
            r matches Some((x_min, x_max, z_min, z_max)) ==> {
                &&& self.chunk_bounds(coord) == Some(
                    (x_min as int, x_max as int, z_min as int, z_max as int),
                )
                &&& -self.radius_spec() <= x_min < x_max <= self.radius_spec()
                &&& -self.radius_spec() <= z_min < z_max <= self.radius_spec()
            },
    {
        proof {
            use_type_invariant(self);
        }
        let chunk = self.chunk_radius as i64;
        let radius = self.radius as i64;
        let cx = coord.x as i64;
        let cz = coord.z as i64;
        assert(-0x8000_0000 * 0x7fff_ffff <= cx * chunk <= 0x7fff_ffff * 0x7fff_ffff) by (nonlinear_arith)
            requires
                1 <= chunk <= 0x7fff_ffff,
                -0x8000_0000 <= cx <= 0x7fff_ffff,
        ;
        assert(-0x8000_0000 * 0x7fff_ffff <= cz * chunk <= 0x7fff_ffff * 0x7fff_ffff) by (nonlinear_arith)
            requires
                1 <= chunk <= 0x7fff_ffff,
                -0x8000_0000 <= cz <= 0x7fff_ffff,
        ;
        let raw_x_min = cx * chunk;
        let raw_z_min = cz * chunk;
        let x_min = if raw_x_min > -radius {
            raw_x_min
        } else {
            -radius
        };
        let z_min = if raw_z_min > -radius {
            raw_z_min
        } else {
            -radius
        };
        let x_max = if raw_x_min + chunk < radius {
            raw_x_min + chunk
        } else {
            radius
        };
        let z_max = if raw_z_min + chunk < radius {
            raw_z_min + chunk
        } else {
            radius
        };
        if x_min >= x_max || z_min >= z_max {
            None
        } else {
            Some((x_min as i32, x_max as i32, z_min as i32, z_max as i32))
        }
    }
}


/// How finely a streamed chunk is meshed.
#[derive(Debug, Clone, Copy, PartialEq, Eq, Structural)]
pub enum TerrainLodLevel {
    High,
    Low,
    Preload,
}

impl TerrainLodLevel {
    /// Mesh subdivisions per tile at this level for a world meshed with
    /// `base` subdivisions: all of them, half, or a quarter, never fewer
    /// than one.
    pub open spec fn subdivisions_for(self, base: u32) -> u32 {
        let scaled = match self {
            TerrainLodLevel::High => base,
            TerrainLodLevel::Low => base / 2,
            TerrainLodLevel::Preload => base / 4,
        };
        if scaled < 1 {
            1
        } else {
            scaled
        }
    }

    /// Mesh subdivisions per tile at this level.
    pub fn subdivisions(self, base: u32) -> (r: u32)
        ensures
            r == self.subdivisions_for(base),
            r >= 1,
    {
        let scaled = match self {
            TerrainLodLevel::High => base,
            TerrainLodLevel::Low => base / 2,
            TerrainLodLevel::Preload => base / 4,
        };
        if scaled < 1 {
            1
        } else {
            scaled
        }
    }

    /// Only fully detailed chunks carry scattered vegetation and rocks.
    pub fn scatter_enabled(self) -> (r: bool)
        ensures
            r == (self == TerrainLodLevel::High),
    {
        match self {
            TerrainLodLevel::High => true,
            _ => false,
        }
    }
}

/// A chunk at a level of detail.
#[derive(Debug, Clone, Copy, PartialEq, Eq, Structural)]
pub struct TerrainChunkKey {
    pub coord: WorldChunkCoord,
    pub lod: TerrainLodLevel,
}

/// A chunk the camera needs, and whether it is drawn or only preloaded.
#[derive(Debug, Clone, Copy, PartialEq, Eq, Structural)]
pub struct TerrainChunkTarget {
    pub key: TerrainChunkKey,
    pub visible: bool,
}

/// Rings of chunks around the camera: fully detailed within `high_radius`,
/// coarse within `low_radius`, preloaded out to `preload_radius`.
#[derive(Debug, Clone, Copy, PartialEq, Eq, Structural)]
pub struct TerrainLodConfig {
    pub high_radius: i32,
    pub low_radius: i32,
    pub preload_radius: i32,
}

/// The ring distance between two chunks: the larger of the axis distances.
pub open spec fn ring_distance(a: WorldChunkCoord, b: WorldChunkCoord) -> int {
    let dx = if a.x >= b.x { a.x - b.x } else { b.x - a.x };
    let dz = if a.z >= b.z { a.z - b.z } else { b.z - a.z };
    max_int(dx, dz)
}

/// The squared planar distance between two chunks.
pub open spec fn squared_distance(a: WorldChunkCoord, b: WorldChunkCoord) -> int {
    (a.x - b.x) * (a.x - b.x) + (a.z - b.z) * (a.z - b.z)
}

/// The level of detail of a chunk at a ring distance.
pub open spec fn lod_for_distance(distance: int, config: TerrainLodConfig) -> TerrainLodLevel {
    if distance <= config.high_radius {
        TerrainLodLevel::High
    } else if distance <= config.low_radius {
        TerrainLodLevel::Low
    } else {
        TerrainLodLevel::Preload
    }
}

/// The target for a chunk near the camera.
pub open spec fn target_for(
    coord: WorldChunkCoord,
    center: WorldChunkCoord,
    config: TerrainLodConfig,
) -> TerrainChunkTarget {
    let lod = lod_for_distance(ring_distance(coord, center), config);
    TerrainChunkTarget {
        key: TerrainChunkKey { coord, lod },
        visible: lod != TerrainLodLevel::Preload,
    }
}

/// A chunk near the camera is drawn exactly when it is needed at high or
/// low detail; preloaded chunks are never drawn. Its level of detail goes
/// by the nearest square around the center that holds it: high inside the
/// high-detail square, low inside the low-detail square only, preload
/// beyond both.
pub proof fn lemma_target_detail_and_visibility(
    coord: WorldChunkCoord,
    center: WorldChunkCoord,
    config: TerrainLodConfig,
)
    ensures
        target_for(coord, center, config).key.coord == coord,
        target_for(coord, center, config).visible <==> target_for(coord, center, config).key.lod
            != TerrainLodLevel::Preload,
        target_for(coord, center, config).visible <==> (target_for(coord, center, config).key.lod
            == TerrainLodLevel::High || target_for(coord, center, config).key.lod == TerrainLodLevel::Low),
        in_square(coord, center, config.high_radius as int) ==> target_for(coord, center, config).key.lod
            == TerrainLodLevel::High,
        !in_square(coord, center, config.high_radius as int) && in_square(coord, center, config.low_radius as int)
            ==> target_for(coord, center, config).key.lod == TerrainLodLevel::Low,
        !in_square(coord, center, config.high_radius as int) && !in_square(
            coord,
            center,
            config.low_radius as int,
        ) ==> target_for(coord, center, config).key.lod == TerrainLodLevel::Preload,
{
}

/// A chunk lies in the square of the given half width around a center.
pub open spec fn in_square(coord: WorldChunkCoord, center: WorldChunkCoord, half: int) -> bool {
    &&& center.x - half <= coord.x <= center.x + half
    &&& center.z - half <= coord.z <= center.z + half
}

/// The order in which nearby chunks are served: nearest first, and among
/// chunks at the same distance, row by row and then along the row.
pub open spec fn served_before(a: WorldChunkCoord, b: WorldChunkCoord, center: WorldChunkCoord) -> bool {
    ||| squared_distance(a, center) < squared_distance(b, center)
    ||| squared_distance(a, center) == squared_distance(b, center) && a.z < b.z
    ||| squared_distance(a, center) == squared_distance(b, center) && a.z == b.z && a.x < b.x
}

/// Chunks listed strictly in serving order.
pub open spec fn in_serving_order(coords: Seq<WorldChunkCoord>, center: WorldChunkCoord) -> bool {
    forall|i: int, j: int| 0 <= i < j < coords.len() ==> served_before(coords[i], coords[j], center)
}

/// Computes the squared distance exactly.
fn squared_distance_exec(a: WorldChunkCoord, b: WorldChunkCoord) -> (r: i128)
    ensures
        r == squared_distance(a, b),
{
    let dx = a.x as i128 - b.x as i128;
    let dz = a.z as i128 - b.z as i128;
    assert(0 <= dx * dx <= 0x1_0000_0000 * 0x1_0000_0000) by (nonlinear_arith)
        requires
            -0x1_0000_0000 <= dx <= 0x1_0000_0000,
    ;
    assert(0 <= dz * dz <= 0x1_0000_0000 * 0x1_0000_0000) by (nonlinear_arith)
        requires
            -0x1_0000_0000 <= dz <= 0x1_0000_0000,
    ;
    dx * dx + dz * dz
}

/// Whether `a` is served before `b`.
fn served_before_exec(a: WorldChunkCoord, b: WorldChunkCoord, center: WorldChunkCoord) -> (r: bool)
    ensures
        r == served_before(a, b, center),
{
    let da = squared_distance_exec(a, center);
    let db = squared_distance_exec(b, center);
    da < db || (da == db && a.z < b.z) || (da == db && a.z == b.z && a.x < b.x)
}

/// Serving order is a strict order: it never holds both ways, and two
/// different chunks are always ordered one way or the other.
pub proof fn lemma_serving_order_is_strict(a: WorldChunkCoord, b: WorldChunkCoord, c: WorldChunkCoord, center: WorldChunkCoord)
    ensures
        !(served_before(a, b, center) && served_before(b, a, center)),
        a != b ==> served_before(a, b, center) || served_before(b, a, center),
        served_before(a, b, center) && served_before(b, c, center) ==> served_before(a, c, center),
        !served_before(a, a, center),
{
}


/// Targets listed strictly in the serving order of their chunks.
pub open spec fn targets_in_serving_order(targets: Seq<TerrainChunkTarget>, center: WorldChunkCoord) -> bool {
    forall|i: int, j: int|
        0 <= i < j < targets.len() ==> served_before(
            #[trigger] targets[i].key.coord,
            #[trigger] targets[j].key.coord,
            center,
        )
}

/// Inserts a chunk not yet listed, keeping the serving order.
fn insert_coord_in_order(coords: &mut Vec<WorldChunkCoord>, coord: WorldChunkCoord, center: WorldChunkCoord)
    requires
        in_serving_order(old(coords)@, center),
        !old(coords)@.contains(coord),
    ensures
        in_serving_order(final(coords)@, center),
        final(coords)@.len() == old(coords)@.len() + 1,
        forall|c: WorldChunkCoord| #[trigger] final(coords)@.contains(c) <==> (old(coords)@.contains(c) || c == coord),
{
    let mut pos: usize = 0;
    while pos < coords.len() && !served_before_exec(coord, coords[pos], center)
        invariant
            pos <= coords@.len(),
            coords@ == old(coords)@,
            forall|k: int| 0 <= k < pos ==> served_before(coords@[k], coord, center),
            !coords@.contains(coord),
        decreases coords@.len() - pos,
    {
        proof {
            assert(coords@[pos as int] != coord);
            lemma_serving_order_is_strict(coord, coords@[pos as int], center, center);
        }
        pos = pos + 1;
    }
    let ghost before = coords@;
    coords.insert(pos, coord);
    assert(coords@ == before.insert(pos as int, coord));
    assert forall|i: int, j: int| 0 <= i < j < coords@.len() implies served_before(
        coords@[i],
        coords@[j],
        center,
    ) by {
        if j < pos {
        } else if i < pos && j == pos {
        } else if i <= pos && j > pos {
            assert(coords@[j] == before[j - 1]);
            assert(served_before(coord, before[pos as int], center));
            if j - 1 > pos {
                assert(served_before(before[pos as int], before[j - 1], center));
                lemma_serving_order_is_strict(coord, before[pos as int], before[j - 1], center);
            }
            if i < pos {
                lemma_serving_order_is_strict(before[i], coord, before[j - 1], center);
            }
        } else {
            assert(coords@[i] == before[i - 1]);
            assert(coords@[j] == before[j - 1]);
        }
    }
    assert forall|c: WorldChunkCoord| coords@.contains(c) <==> (before.contains(c) || c == coord) by {
        if coords@.contains(c) {
            let k = choose|k: int| 0 <= k < coords@.len() && coords@[k] == c;
            if k < pos {
                assert(before[k] == c);
            } else if k > pos {
                assert(before[k - 1] == c);
            }
        }
        if before.contains(c) {
            let k = choose|k: int| 0 <= k < before.len() && before[k] == c;
            if k < pos {
                assert(coords@[k] == c);
            } else {
                assert(coords@[k + 1] == c);
            }
        }
        if c == coord {
            assert(coords@[pos as int] == c);
        }
    }
}

/// A chunk comes before the scan position `(x, z)` when the square is
/// walked row by row, and along each row.
pub open spec fn scanned_before(coord: WorldChunkCoord, x: int, z: int) -> bool {
    coord.z < z || (coord.z == z && coord.x < x)
}

/// A square of half width `half` around `center` stays on the `i32` grid.
pub open spec fn square_fits(center: WorldChunkCoord, half: int) -> bool {
    half >= 0 ==> {
        &&& i32::MIN <= center.x - half
        &&& center.x + half <= i32::MAX
        &&& i32::MIN <= center.z - half
        &&& center.z + half <= i32::MAX
    }
}

/// The chunks of the world within `radius` rings of `center`, nearest
/// first, and among chunks at the same distance row by row, then along the
/// row; empty for a negative radius.
pub fn chunk_coords_around(world_map: &WorldMap, center: WorldChunkCoord, radius: i32) -> (r: Vec<WorldChunkCoord>)
    requires
        square_fits(center, radius as int),
    ensures
        in_serving_order(r@, center),
        forall|i: int|
            0 <= i < r@.len() ==> in_square(#[trigger] r@[i], center, radius as int)
                && world_map.chunk_bounds(r@[i]) is Some,
        forall|coord: WorldChunkCoord|
            in_square(coord, center, radius as int) && (#[trigger] world_map.chunk_bounds(coord)) is Some
                ==> r@.contains(coord),
{
    let mut coords: Vec<WorldChunkCoord> = Vec::new();
    if radius < 0 {
        return coords;
    }
    let half = radius as i64;
    let x_lo = center.x as i64 - half;
    let x_hi = center.x as i64 + half;
    let z_hi = center.z as i64 + half;
    let mut z = center.z as i64 - half;
    while z <= z_hi
        invariant
            square_fits(center, half as int),
            half == radius,
            half >= 0,
            x_lo == center.x - half,
            x_hi == center.x + half,
            z_hi == center.z + half,
            center.z - half <= z <= z_hi + 1,
            in_serving_order(coords@, center),
            forall|i: int|
                0 <= i < coords@.len() ==> in_square(#[trigger] coords@[i], center, half as int)
                    && world_map.chunk_bounds(coords@[i]) is Some && coords@[i].z < z,
            forall|coord: WorldChunkCoord|
                in_square(coord, center, half as int) && coord.z < z && (
                #[trigger] world_map.chunk_bounds(coord)) is Some ==> coords@.contains(coord),
        decreases z_hi + 1 - z,
    {
        let mut x = x_lo;
        while x <= x_hi
            invariant
                square_fits(center, half as int),
                half == radius,
                half >= 0,
                x_lo == center.x - half,
                x_hi == center.x + half,
                z_hi == center.z + half,
                center.z - half <= z <= z_hi,
                x_lo <= x <= x_hi + 1,
                in_serving_order(coords@, center),
                forall|i: int|
                    0 <= i < coords@.len() ==> in_square(#[trigger] coords@[i], center, half as int)
                        && world_map.chunk_bounds(coords@[i]) is Some && scanned_before(
                        coords@[i],
                        x as int,
                        z as int,
                    ),
                forall|coord: WorldChunkCoord|
                    in_square(coord, center, half as int) && scanned_before(coord, x as int, z as int)
                        && (#[trigger] world_map.chunk_bounds(coord)) is Some ==> coords@.contains(coord),
            decreases x_hi + 1 - x,
        {
            let coord = WorldChunkCoord { x: x as i32, z: z as i32 };
            if world_map.chunk_mesh_tile_bounds(coord).is_some() {
                let ghost before = coords@;
                assert(!before.contains(coord)) by {
                    if before.contains(coord) {
                        let k = choose|k: int| 0 <= k < before.len() && before[k] == coord;
                        assert(scanned_before(before[k], x as int, z as int));
                    }
                }
                insert_coord_in_order(&mut coords, coord, center);
                assert forall|i: int| 0 <= i < coords@.len() implies in_square(
                    #[trigger] coords@[i],
                    center,
                    half as int,
                ) && world_map.chunk_bounds(coords@[i]) is Some && scanned_before(coords@[i], x + 1, z as int) by {
                    assert(coords@.contains(coords@[i]));
                    if coords@[i] != coord {
                        let k = choose|k: int| 0 <= k < before.len() && before[k] == coords@[i];
                    }
                }
            } else {
                assert forall|c: WorldChunkCoord|
                    in_square(c, center, half as int) && scanned_before(c, x + 1, z as int)
                        && (#[trigger] world_map.chunk_bounds(c)) is Some implies coords@.contains(c) by {
                    if c == coord {
                        assert(world_map.chunk_bounds(coord) is None);
                    }
                }
            }
            x = x + 1;
        }
        z = z + 1;
    }
    coords
}

/// The target for a chunk near the camera.
fn target_for_exec(coord: WorldChunkCoord, center: WorldChunkCoord, lod_config: TerrainLodConfig) -> (r: TerrainChunkTarget)
    ensures
        r == target_for(coord, center, lod_config),
        r.key.coord == coord,
        r.visible <==> r.key.lod != TerrainLodLevel::Preload,
{
    let dx = if coord.x >= center.x {
        coord.x as i64 - center.x as i64
    } else {
        center.x as i64 - coord.x as i64
    };
    let dz = if coord.z >= center.z {
        coord.z as i64 - center.z as i64
    } else {
        center.z as i64 - coord.z as i64
    };
    let distance = if dx >= dz {
        dx
    } else {
        dz
    };
    let lod = if distance <= lod_config.high_radius as i64 {
        TerrainLodLevel::High
    } else if distance <= lod_config.low_radius as i64 {
        TerrainLodLevel::Low
    } else {
        TerrainLodLevel::Preload
    };
    let visible = match lod {
        TerrainLodLevel::Preload => false,
        _ => true,
    };
    TerrainChunkTarget { key: TerrainChunkKey { coord, lod }, visible }
}

/// The chunks the camera needs around `center`: every chunk of the world
/// within the preload square, each at the level of detail its ring distance
/// calls for, listed nearest first (ties row by row, then along the row).
pub fn chunk_targets_for_center(
    world_map: &WorldMap,
    center: WorldChunkCoord,
    lod_config: TerrainLodConfig,
) -> (r: Vec<TerrainChunkTarget>)
    requires
        square_fits(center, lod_config.preload_radius as int),
    ensures
        targets_in_serving_order(r@, center),
        forall|i: int| 0 <= i < r@.len() ==> ((#[trigger] r@[i]).visible <==> r@[i].key.lod != TerrainLodLevel::Preload),
        forall|i: int|
            0 <= i < r@.len() ==> {
                &&& #[trigger] r@[i] == target_for(r@[i].key.coord, center, lod_config)
                &&& in_square(r@[i].key.coord, center, lod_config.preload_radius as int)
                &&& world_map.chunk_bounds(r@[i].key.coord) is Some
            },
        forall|coord: WorldChunkCoord|
            in_square(coord, center, lod_config.preload_radius as int) && (
            #[trigger] world_map.chunk_bounds(coord)) is Some ==> r@.contains(
                target_for(coord, center, lod_config),
            ),
{
    let coords = chunk_coords_around(world_map, center, lod_config.preload_radius);
    let mut targets: Vec<TerrainChunkTarget> = Vec::new();
    let mut i: usize = 0;
    while i < coords.len()
        invariant
            i <= coords@.len(),
            targets@.len() == i,
            forall|k: int| 0 <= k < i ==> #[trigger] targets@[k] == target_for(coords@[k], center, lod_config),
        decreases coords@.len() - i,
    {
        targets.push(target_for_exec(coords[i], center, lod_config));
        i = i + 1;
    }
    assert forall|coord: WorldChunkCoord|
        in_square(coord, center, lod_config.preload_radius as int) && (
        #[trigger] world_map.chunk_bounds(coord)) is Some implies targets@.contains(
            target_for(coord, center, lod_config),
        ) by {
        assert(coords@.contains(coord));
        let k = choose|k: int| 0 <= k < coords@.len() && coords@[k] == coord;
        assert(targets@[k] == target_for(coord, center, lod_config));
    }
    assert forall|i: int, j: int| 0 <= i < j < targets@.len() implies served_before(
        #[trigger] targets@[i].key.coord,
        #[trigger] targets@[j].key.coord,
        center,
    ) by {
        assert(targets@[i] == target_for(coords@[i], center, lod_config));
        assert(targets@[j] == target_for(coords@[j], center, lod_config));
    }
    targets
}


/// The key a chunk keeps while the camera moves: one it needs, or an older
/// level of detail of a chunk whose drawn replacement is not spawned yet.
/// `visible_by_coord` pairs each drawn chunk with the key drawn there.
pub open spec fn keeps_chunk_key(
    existing_key: TerrainChunkKey,
    desired_keys: Seq<TerrainChunkKey>,
    visible_by_coord: Seq<(WorldChunkCoord, TerrainChunkKey)>,
    spawned_keys: Seq<TerrainChunkKey>,
) -> bool {
    ||| desired_keys.contains(existing_key)
    ||| exists|i: int|
        0 <= i < visible_by_coord.len() && (#[trigger] visible_by_coord[i]).0 == existing_key.coord && (
        visible_by_coord[i].1 == existing_key || !spawned_keys.contains(visible_by_coord[i].1))
}

/// No chunk is paired twice.
pub open spec fn coords_distinct(entries: Seq<(WorldChunkCoord, TerrainChunkKey)>) -> bool {
    forall|i: int, j: int| 0 <= i < j < entries.len() ==> (#[trigger] entries[i]).0 != (#[trigger] entries[j]).0
}

/// Whether a spawned chunk entity stays: it is still needed, or it is an
/// older level of detail whose drawn replacement has not been spawned.
pub fn should_keep_chunk_key(
    existing_key: TerrainChunkKey,
    desired_keys: &Vec<TerrainChunkKey>,
    desired_visible_by_coord: &Vec<(WorldChunkCoord, TerrainChunkKey)>,
    spawned_keys: &Vec<TerrainChunkKey>,
) -> (r: bool)
    requires
        coords_distinct(desired_visible_by_coord@),
    ensures
        r == keeps_chunk_key(existing_key, desired_keys@, desired_visible_by_coord@, spawned_keys@),
{
    if vec_contains_key(desired_keys, existing_key) {
        return true;
    }
    let mut i: usize = 0;
    while i < desired_visible_by_coord.len()
        invariant
            i <= desired_visible_by_coord@.len(),
            coords_distinct(desired_visible_by_coord@),
            !desired_keys@.contains(existing_key),
            forall|k: int| 0 <= k < i ==> (#[trigger] desired_visible_by_coord@[k]).0 != existing_key.coord,
        decreases desired_visible_by_coord@.len() - i,
    {
        let (coord, replacement_key) = desired_visible_by_coord[i];
        if coord == existing_key.coord {
            let keep = replacement_key == existing_key || !vec_contains_key(spawned_keys, replacement_key);
            assert forall|k: int|
                0 <= k < desired_visible_by_coord@.len() && (#[trigger] desired_visible_by_coord@[k]).0
                    == existing_key.coord implies k == i by {
                if k != i {
                    if k < i {
                    } else {
                        assert(desired_visible_by_coord@[i as int].0 != desired_visible_by_coord@[k].0);
                    }
                }
            }
            assert(desired_visible_by_coord@[i as int] == (coord, replacement_key));
            assert(!desired_keys@.contains(existing_key));
            if keep {
                assert(keeps_chunk_key(existing_key, desired_keys@, desired_visible_by_coord@, spawned_keys@));
            } else {
                assert(!keeps_chunk_key(existing_key, desired_keys@, desired_visible_by_coord@, spawned_keys@));
            }
            return keep;
        }
        i = i + 1;
    }
    false
}

/// Whether a key is listed.
fn vec_contains_key(keys: &Vec<TerrainChunkKey>, key: TerrainChunkKey) -> (r: bool)
    ensures
        r == keys@.contains(key),
{
    let mut i: usize = 0;
    while i < keys.len()
        invariant
            i <= keys@.len(),
            forall|k: int| 0 <= k < i ==> keys@[k] != key,
        decreases keys@.len() - i,
    {
        if keys[i] == key {
            assert(keys@[i as int] == key);
            return true;
        }
        i = i + 1;
    }
    false
}

/// Where a chunk is paired, if it is.
fn entry_index(entries: &Vec<(WorldChunkCoord, TerrainChunkKey)>, coord: WorldChunkCoord) -> (r: Option<usize>)
    ensures
        match r {
            Some(j) => j < entries@.len() && entries@[j as int].0 == coord,
            None => forall|k: int| 0 <= k < entries@.len() ==> (#[trigger] entries@[k]).0 != coord,
        },
{
    let mut j: usize = 0;
    while j < entries.len()
        invariant
            j <= entries@.len(),
            forall|k: int| 0 <= k < j ==> (#[trigger] entries@[k]).0 != coord,
        decreases entries@.len() - j,
    {
        if entries[j].0 == coord {
            return Some(j);
        }
        j = j + 1;
    }
    None
}

/// The key drawn at a chunk, if any: the last drawn target listed there.
pub open spec fn visible_key_at(targets: Seq<TerrainChunkTarget>, coord: WorldChunkCoord) -> Option<TerrainChunkKey>
    decreases targets.len(),
{
    if targets.len() == 0 {
        None
    } else if targets.last().visible && targets.last().key.coord == coord {
        Some(targets.last().key)
    } else {
        visible_key_at(targets.drop_last(), coord)
    }
}

/// Pairs each drawn chunk with the key drawn there; where a chunk is
/// listed more than once, the last drawn target wins.
pub fn visible_keys_by_coord(targets: &Vec<TerrainChunkTarget>) -> (r: Vec<(WorldChunkCoord, TerrainChunkKey)>)
    ensures
        coords_distinct(r@),
        forall|i: int| 0 <= i < r@.len() ==> visible_key_at(targets@, (#[trigger] r@[i]).0) == Some(r@[i].1),
        forall|coord: WorldChunkCoord|
            (#[trigger] visible_key_at(targets@, coord)) is Some ==> exists|i: int| 0 <= i < r@.len() && r@[i].0 == coord,
{
    let mut entries: Vec<(WorldChunkCoord, TerrainChunkKey)> = Vec::new();
    let mut i: usize = 0;
    while i < targets.len()
        invariant
            i <= targets@.len(),
            coords_distinct(entries@),
            forall|k: int|
                0 <= k < entries@.len() ==> visible_key_at(targets@.take(i as int), (#[trigger] entries@[k]).0)
                    == Some(entries@[k].1),
            forall|coord: WorldChunkCoord|
                (#[trigger] visible_key_at(targets@.take(i as int), coord)) is Some ==> exists|k: int|
                    0 <= k < entries@.len() && entries@[k].0 == coord,
        decreases targets@.len() - i,
    {
        let target = targets[i];
        let ghost prefix = targets@.take(i as int);
        let ghost next = targets@.take(i + 1);
        assert(next.drop_last() == prefix);
        assert(next.last() == target);
        if target.visible {
            let found_at = entry_index(&entries, target.key.coord);
            let ghost old_entries = entries@;
            if let Some(j) = found_at {
                entries.set(j, (target.key.coord, target.key));
                assert forall|a: int, b: int| 0 <= a < b < entries@.len() implies (#[trigger] entries@[a]).0
                    != (#[trigger] entries@[b]).0 by {
                    assert(old_entries[a].0 != old_entries[b].0);
                }
                assert forall|k: int| 0 <= k < entries@.len() implies visible_key_at(
                    next,
                    (#[trigger] entries@[k]).0,
                ) == Some(entries@[k].1) by {
                    if k != j {
                        assert(old_entries[k].0 != old_entries[j as int].0);
                    }
                }
                assert forall|coord: WorldChunkCoord| (#[trigger] visible_key_at(next, coord)) is Some implies exists|k: int|
                    0 <= k < entries@.len() && entries@[k].0 == coord by {
                    if coord == target.key.coord {
                        assert(entries@[j as int].0 == coord);
                    } else {
                        assert(visible_key_at(prefix, coord) is Some);
                        let k = choose|k: int| 0 <= k < old_entries.len() && old_entries[k].0 == coord;
                        assert(entries@[k].0 == coord);
                    }
                }
            } else {
                entries.push((target.key.coord, target.key));
                assert forall|a: int, b: int| 0 <= a < b < entries@.len() implies (#[trigger] entries@[a]).0
                    != (#[trigger] entries@[b]).0 by {
                    if b < old_entries.len() {
                        assert(old_entries[a].0 != old_entries[b].0);
                    } else {
                        assert(old_entries[a].0 != target.key.coord);
                    }
                }
                assert forall|k: int| 0 <= k < entries@.len() implies visible_key_at(
                    next,
                    (#[trigger] entries@[k]).0,
                ) == Some(entries@[k].1) by {
                    if k < old_entries.len() {
                        assert(old_entries[k] == entries@[k]);
                        assert(old_entries[k].0 != target.key.coord);
                    }
                }
                assert forall|coord: WorldChunkCoord| (#[trigger] visible_key_at(next, coord)) is Some implies exists|k: int|
                    0 <= k < entries@.len() && entries@[k].0 == coord by {
                    if coord == target.key.coord {
                        assert(entries@[old_entries.len() as int].0 == coord);
                    } else {
                        assert(visible_key_at(prefix, coord) is Some);
                        let k = choose|k: int| 0 <= k < old_entries.len() && old_entries[k].0 == coord;
                        assert(entries@[k].0 == coord);
                    }
                }
            }
        } else {
            assert forall|k: int| 0 <= k < entries@.len() implies visible_key_at(
                next,
                (#[trigger] entries@[k]).0,
            ) == Some(entries@[k].1) by {
                assert(visible_key_at(prefix, entries@[k].0) == Some(entries@[k].1));
            }
            assert forall|coord: WorldChunkCoord| (#[trigger] visible_key_at(next, coord)) is Some implies exists|k: int|
                0 <= k < entries@.len() && entries@[k].0 == coord by {
                assert(visible_key_at(prefix, coord) is Some);
            }
        }
        i = i + 1;
    }
    assert(targets@.take(targets@.len() as int) == targets@);
    entries
}


/// The key drawn at a chunk, if any: the last drawn target listed there.
pub fn visible_key_for(targets: &Vec<TerrainChunkTarget>, coord: WorldChunkCoord) -> (r: Option<TerrainChunkKey>)
    ensures
        r == visible_key_at(targets@, coord),
{
    let mut i: usize = targets.len();
    assert(targets@.take(i as int) == targets@);
    while i > 0
        invariant
            i <= targets@.len(),
            visible_key_at(targets@, coord) == visible_key_at(targets@.take(i as int), coord),
        decreases i,
    {
        let target = targets[i - 1];
        assert(targets@.take(i as int).drop_last() == targets@.take(i - 1));
        if target.visible && target.key.coord == coord {
            return Some(target.key);
        }
        i = i - 1;
    }
    None
}

/// Whether spawning `spawned_key` retires the entity of `existing_key`:
/// the spawned key is the one drawn at its chunk, and the existing entity
/// is another level of detail of the same chunk.
pub fn spawned_key_replaces(
    spawned_key: TerrainChunkKey,
    active_targets: &Vec<TerrainChunkTarget>,
    existing_key: TerrainChunkKey,
) -> (r: bool)
    ensures
        r == (visible_key_at(active_targets@, spawned_key.coord) == Some(spawned_key)
            && existing_key.coord == spawned_key.coord && existing_key != spawned_key),
{
    match visible_key_for(active_targets, spawned_key.coord) {
        Some(key) => key == spawned_key && existing_key.coord == spawned_key.coord && existing_key != spawned_key,
        None => false,
    }
}

/// The distant terrain backdrop, and the chunk it was last built around.
#[derive(Debug, Clone, Copy, PartialEq, Eq, Structural)]
pub struct TerrainImpostorState {
    pub anchor: Option<WorldChunkCoord>,
}

impl TerrainImpostorState {
    /// The backdrop is rebuilt when it was never built, or when the camera
    /// chunk has moved more than `required_distance` rings (at least zero)
    /// away from where it was built.
    pub fn should_refresh(&self, next_anchor: WorldChunkCoord, required_distance: i32) -> (r: bool)
        ensures
            r == match self.anchor {
                None => true,
                Some(anchor) => ring_distance(anchor, next_anchor) > max_int(required_distance as int, 0),
            },
    {
        let required = if required_distance < 0 {
            0i64
        } else {
            required_distance as i64
        };
        match self.anchor {
            None => true,
            Some(anchor) => {
                let dx = if anchor.x >= next_anchor.x {
                    anchor.x as i64 - next_anchor.x as i64
                } else {
                    next_anchor.x as i64 - anchor.x as i64
                };
                let dz = if anchor.z >= next_anchor.z {
                    anchor.z as i64 - next_anchor.z as i64
                } else {
                    next_anchor.z as i64 - anchor.z as i64
                };
                let distance = if dx >= dz {
                    dx
                } else {
                    dz
                };
                distance > required
            },
        }
    }
}

/// How heavily the last frames loaded the frame budget: within it or a
/// little over, well over (more than 1.75 budgets), or far over (more
/// than three).
#[derive(Debug, Clone, Copy, PartialEq, Eq, Structural)]
pub enum FrameLoad {
    Normal,
    Strained,
    Overloaded,
}

/// The work allowed in a frame: the base budget (raised to the minimum)
/// under normal load, half of it rounded up under strain, and only the
/// minimum when overloaded.
pub open spec fn adaptive_budget_spec(base_budget: int, minimum_budget: int, load: FrameLoad) -> int {
    let base = max_int(base_budget, minimum_budget);
    match load {
        FrameLoad::Overloaded => minimum_budget,
        FrameLoad::Strained => max_int((base + 1) / 2, minimum_budget),
        FrameLoad::Normal => base,
    }
}

/// The work allowed in a frame under the given load.
pub fn adaptive_budget(base_budget: usize, minimum_budget: usize, load: FrameLoad) -> (r: usize)
    ensures
        r == adaptive_budget_spec(base_budget as int, minimum_budget as int, load),
        r >= minimum_budget,
        r <= max_int(base_budget as int, minimum_budget as int),
{
    let base = if base_budget >= minimum_budget {
        base_budget
    } else {
        minimum_budget
    };
    match load {
        FrameLoad::Overloaded => minimum_budget,
        FrameLoad::Strained => {
            let half = base / 2 + base % 2;
            if half >= minimum_budget {
                half
            } else {
                minimum_budget
            }
        },
        FrameLoad::Normal => base,
    }
}

/// Heavier load never allows more work: the budget under strain is at
/// most the normal one and at least the overloaded one.
pub proof fn lemma_adaptive_budget_shrinks_with_load(base_budget: int, minimum_budget: int)
    requires
        0 <= minimum_budget,
    ensures
        adaptive_budget_spec(base_budget, minimum_budget, FrameLoad::Overloaded) <= adaptive_budget_spec(
            base_budget,
            minimum_budget,
            FrameLoad::Strained,
        ),
        adaptive_budget_spec(base_budget, minimum_budget, FrameLoad::Strained) <= adaptive_budget_spec(
            base_budget,
            minimum_budget,
            FrameLoad::Normal,
        ),
{
}

/// How many chunk builds may be in flight at once: three per background
/// build allowed in a frame (counting at least one), and never fewer than six.
pub fn streaming_inflight_cap(background_budget: usize) -> (r: usize)
    requires
        background_budget <= usize::MAX / 3,
    ensures
        r == max_int(3 * max_int(background_budget as int, 1), 6),
{
    let budget = if background_budget >= 1 {
        background_budget
    } else {
        1
    };
    let cap = budget * 3;
    if cap >= 6 {
        cap
    } else {
        6
    }
}

/// The vertex a triangle corner of a grid cell refers to, in a grid of
/// `nx` cells per row whose vertices are numbered row by row. Each cell
/// `(z, x)` is drawn as the two triangles top-left, bottom-left, top-right
/// and top-right, bottom-left, bottom-right.
pub open spec fn cell_corner(nx: int, z: int, x: int, corner: int) -> int {
    let stride = nx + 1;
    if corner == 0 {
        z * stride + x
    } else if corner == 1 || corner == 4 {
        (z + 1) * stride + x
    } else if corner == 2 || corner == 3 {
        z * stride + x + 1
    } else {
        (z + 1) * stride + x + 1
    }
}

/// The `i`-th triangle index of a grid of `nx` cells per row: six indices
/// per cell, cells row by row.
pub open spec fn grid_triangle_index(nx: int, i: int) -> int {
    cell_corner(nx, (i / 6) / nx, (i / 6) % nx, i % 6)
}

/// The index at position `6 * (z * nx + x) + corner` belongs to corner
/// `corner` of cell `(z, x)`.
proof fn lemma_grid_position(nx: int, z: int, x: int, corner: int)
    requires
        nx > 0,
        z >= 0,
        0 <= x < nx,
        0 <= corner < 6,
    ensures
        grid_triangle_index(nx, 6 * (z * nx + x) + corner) == cell_corner(nx, z, x, corner),
{
    let cell = z * nx + x;
    assert(cell >= 0) by (nonlinear_arith)
        requires
            z >= 0,
            nx > 0,
            x >= 0,
            cell == z * nx + x,
    ;
    vstd::arithmetic::div_mod::lemma_fundamental_div_mod_converse(6 * cell + corner, 6, cell, corner);
    vstd::arithmetic::div_mod::lemma_fundamental_div_mod_converse(cell, nx, z, x);
}

/// The triangle list of a terrain mesh grid of `nx` by `nz` cells, whose
/// `(nx + 1) * (nz + 1)` vertices are numbered row by row: six indices per
/// cell, cells row by row.
pub fn grid_triangle_indices(nx: u32, nz: u32) -> (r: Vec<u32>)
    requires
        (nx + 1) * (nz + 1) <= u32::MAX,
    ensures
        r@.len() == 6 * nx * nz,
        forall|i: int| 0 <= i < r@.len() ==> #[trigger] r@[i] == grid_triangle_index(nx as int, i),
        forall|i: int| 0 <= i < r@.len() ==> #[trigger] r@[i] < (nx + 1) * (nz + 1),
{
    let mut r: Vec<u32> = Vec::new();
    if nx == 0 {
        assert(6 * nx * nz == 0) by (nonlinear_arith)
            requires
                nx == 0,
        ;
        return r;
    }
    assert(nx + 1 <= u32::MAX) by (nonlinear_arith)
        requires
            (nx + 1) * (nz + 1) <= u32::MAX,
    ;
    let stride: u32 = nx + 1;
    let ghost bound: int = (nx + 1) * (nz + 1);
    let mut z: u32 = 0;
    while z < nz
        invariant
            nx > 0,
            stride == nx + 1,
            bound == (nx + 1) * (nz + 1),
            bound <= u32::MAX,
            z <= nz,
            r@.len() == 6 * (z * nx),
            forall|i: int| 0 <= i < r@.len() ==> #[trigger] r@[i] == grid_triangle_index(nx as int, i),
            forall|i: int| 0 <= i < r@.len() ==> #[trigger] r@[i] < bound,
        decreases nz - z,
    {
        assert((z + 1) * stride + nx <= bound - 1) by (nonlinear_arith)
            requires
                z + 1 <= nz,
                stride == nx + 1,
                bound == (nx + 1) * (nz + 1),
        ;
        assert((z + 1) * stride == z * stride + stride) by (nonlinear_arith);
        let row: u32 = z * stride;
        let next_row: u32 = row + stride;
        let mut x: u32 = 0;
        while x < nx
            invariant
                nx > 0,
                stride == nx + 1,
                bound == (nx + 1) * (nz + 1),
                bound <= u32::MAX,
                z < nz,
                x <= nx,
                row == z * stride,
                next_row == (z + 1) * stride,
                next_row == row + stride,
                next_row + nx <= bound - 1,
                r@.len() == 6 * (z * nx + x),
                forall|i: int| 0 <= i < r@.len() ==> #[trigger] r@[i] == grid_triangle_index(nx as int, i),
                forall|i: int| 0 <= i < r@.len() ==> #[trigger] r@[i] < bound,
            decreases nx - x,
        {
            let top_left = row + x;
            let top_right = top_left + 1;
            let bottom_left = next_row + x;
            let bottom_right = bottom_left + 1;
            let ghost start = r@.len() as int;
            proof {
                lemma_grid_position(nx as int, z as int, x as int, 0);
                lemma_grid_position(nx as int, z as int, x as int, 1);
                lemma_grid_position(nx as int, z as int, x as int, 2);
                lemma_grid_position(nx as int, z as int, x as int, 3);
                lemma_grid_position(nx as int, z as int, x as int, 4);
                lemma_grid_position(nx as int, z as int, x as int, 5);
            }
            r.push(top_left);
            r.push(bottom_left);
            r.push(top_right);
            r.push(top_right);
            r.push(bottom_left);
            r.push(bottom_right);
            assert(r@.len() == 6 * (z * nx + x + 1));
            x = x + 1;
        }
        assert(z * nx + nx == (z + 1) * nx) by (nonlinear_arith);
        z = z + 1;
    }
    assert(6 * (nz * nx) == 6 * nx * nz) by (nonlinear_arith);
    r
}

} // verus!
