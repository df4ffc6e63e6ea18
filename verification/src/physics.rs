//! Collision layers, collider roles and stable identifiers for physics proxies.

use vstd::prelude::*;

verus! {

/// A collision layer; each layer owns exactly one bit of a 32-bit mask.
#[derive(Debug, Clone, Copy, PartialEq, Eq, Structural)]
pub enum DaoPhysicsLayer {
    Player,
    Terrain,
    StaticWorld,
    DynamicWorld,
    Sensor,
    Gallery,
}

impl DaoPhysicsLayer {
    /// Position of the layer's bit inside a mask.
    pub open spec fn layer_index(self) -> u32 {
        match self {
            DaoPhysicsLayer::Player => 1,
            DaoPhysicsLayer::Terrain => 2,
            DaoPhysicsLayer::StaticWorld => 3,
            DaoPhysicsLayer::DynamicWorld => 4,
            DaoPhysicsLayer::Sensor => 5,
            DaoPhysicsLayer::Gallery => 6,
        }
    }

    /// The single-bit mask of the layer, `1 << layer_index`.
    pub open spec fn layer_bit(self) -> u32 {
        match self {
            DaoPhysicsLayer::Player => 2,
            DaoPhysicsLayer::Terrain => 4,
            DaoPhysicsLayer::StaticWorld => 8,
            DaoPhysicsLayer::DynamicWorld => 16,
            DaoPhysicsLayer::Sensor => 32,
            DaoPhysicsLayer::Gallery => 64,
        }
    }

    fn index(self) -> (r: u32)
        ensures
            r == self.layer_index(),
    {
        match self {
            DaoPhysicsLayer::Player => 1,
            DaoPhysicsLayer::Terrain => 2,
            DaoPhysicsLayer::StaticWorld => 3,
            DaoPhysicsLayer::DynamicWorld => 4,
            DaoPhysicsLayer::Sensor => 5,
            DaoPhysicsLayer::Gallery => 6,
        }
    }

    /// The layer's mask bit.
    pub fn bit(self) -> (r: u32)
        ensures
            r == self.layer_bit(),
            r == 1u32 << self.layer_index(),
    {
        let index = self.index();
        assert(1u32 << 1u32 == 2u32) by (bit_vector);
        assert(1u32 << 2u32 == 4u32) by (bit_vector);
        assert(1u32 << 3u32 == 8u32) by (bit_vector);
        assert(1u32 << 4u32 == 16u32) by (bit_vector);
        assert(1u32 << 5u32 == 32u32) by (bit_vector);
        assert(1u32 << 6u32 == 64u32) by (bit_vector);
        1u32 << index
    }
}


/// Proof that layer bits are single, distinct bits: two different layers
/// never share a bit.
pub proof fn lemma_layer_bits_distinct(a: DaoPhysicsLayer, b: DaoPhysicsLayer)
    ensures
        a != b ==> a.layer_bit() & b.layer_bit() == 0u32,
        a != b ==> a.layer_bit() != b.layer_bit(),
        a.layer_bit() & a.layer_bit() == a.layer_bit(),
{
    assert(2u32 & 4u32 == 0u32) by (bit_vector);
    assert(2u32 & 8u32 == 0u32) by (bit_vector);
    assert(2u32 & 16u32 == 0u32) by (bit_vector);
    assert(2u32 & 32u32 == 0u32) by (bit_vector);
    assert(2u32 & 64u32 == 0u32) by (bit_vector);
    assert(4u32 & 8u32 == 0u32) by (bit_vector);
    assert(4u32 & 16u32 == 0u32) by (bit_vector);
    assert(4u32 & 32u32 == 0u32) by (bit_vector);
    assert(4u32 & 64u32 == 0u32) by (bit_vector);
    assert(8u32 & 16u32 == 0u32) by (bit_vector);
    assert(8u32 & 32u32 == 0u32) by (bit_vector);
    assert(8u32 & 64u32 == 0u32) by (bit_vector);
    assert(16u32 & 32u32 == 0u32) by (bit_vector);
    assert(16u32 & 64u32 == 0u32) by (bit_vector);
    assert(32u32 & 64u32 == 0u32) by (bit_vector);
    assert(forall|x: u32, y: u32| #[trigger] (x & y) == y & x) by (bit_vector);
    assert(forall|x: u32| #[trigger] (x & x) == x) by (bit_vector);
}

/// A 32-bit set of collision layers.
#[derive(Debug, Clone, Copy, PartialEq, Eq, Structural)]
pub struct LayerMask(pub u32);

/// Which layers a collider belongs to and which layers it may touch.
#[derive(Debug, Clone, Copy, PartialEq, Eq, Structural)]
pub struct CollisionLayers {
    pub memberships: LayerMask,
    pub filters: LayerMask,
}

impl CollisionLayers {
    /// Two layer configurations interact when each one's memberships meet
    /// the other's filters.
    pub open spec fn interacts(self, other: Self) -> bool {
        (self.memberships.0 & other.filters.0) != 0u32 && (other.memberships.0
            & self.filters.0) != 0u32
    }

    /// Builds a configuration from raw membership and filter bits.
    pub fn from_bits(memberships: u32, filters: u32) -> (r: Self)
        ensures
            r.memberships.0 == memberships,
            r.filters.0 == filters,
    {
        CollisionLayers { memberships: LayerMask(memberships), filters: LayerMask(filters) }
    }

    /// Whether colliders with these two configurations can touch.
    pub fn interacts_with(self, other: Self) -> (r: bool)
        ensures
            r == self.interacts(other),
    {
        (self.memberships.0 & other.filters.0) != 0 && (other.memberships.0 & self.filters.0) != 0
    }
}

/// Interaction between two layer configurations does not depend on the
/// order in which they are compared.
pub proof fn lemma_interaction_is_symmetric(a: CollisionLayers, b: CollisionLayers)
    ensures
        a.interacts(b) == b.interacts(a),
{
}

/// The configuration of a collider from its membership layers and the
/// layers it filters for.
pub open spec fn layer_config(memberships: u32, filters: u32) -> CollisionLayers {
    CollisionLayers { memberships: LayerMask(memberships), filters: LayerMask(filters) }
}

/// Static world blockers: they stop the player, dynamic bodies and gallery
/// exhibits.
pub open spec fn static_world_config() -> CollisionLayers {
    layer_config(8u32, 2u32 | 16u32 | 64u32)
}

/// Terrain heightfields: they carry the player and dynamic bodies.
pub open spec fn terrain_config() -> CollisionLayers {
    layer_config(4u32, 2u32 | 16u32)
}

/// The player capsule: it touches every layer but its own.
pub open spec fn player_config() -> CollisionLayers {
    layer_config(2u32, 4u32 | 8u32 | 16u32 | 32u32 | 64u32)
}

/// Interaction sensors: only the player triggers them.
pub open spec fn sensor_config() -> CollisionLayers {
    layer_config(32u32, 2u32)
}

/// Gallery exhibits: the player and sensors see them.
pub open spec fn gallery_config() -> CollisionLayers {
    layer_config(64u32, 2u32 | 32u32)
}

/// The forward probe ray: world blockers, dynamic bodies, sensors and
/// exhibits, never the player or the terrain.
pub open spec fn forward_query_bits() -> u32 {
    8u32 | 16u32 | 32u32 | 64u32
}

/// Layers of static world blockers.
pub fn static_world_layers() -> (r: CollisionLayers)
    ensures
        r == static_world_config(),
{
    CollisionLayers::from_bits(
        DaoPhysicsLayer::StaticWorld.bit(),
        DaoPhysicsLayer::Player.bit() | DaoPhysicsLayer::DynamicWorld.bit()
            | DaoPhysicsLayer::Gallery.bit(),
    )
}

/// Layers of terrain heightfields.
pub fn terrain_layers() -> (r: CollisionLayers)
    ensures
        r == terrain_config(),
{
    CollisionLayers::from_bits(
        DaoPhysicsLayer::Terrain.bit(),
        DaoPhysicsLayer::Player.bit() | DaoPhysicsLayer::DynamicWorld.bit(),
    )
}

/// Layers of the player capsule.
pub fn player_layers() -> (r: CollisionLayers)
    ensures
        r == player_config(),
{
    CollisionLayers::from_bits(
        DaoPhysicsLayer::Player.bit(),
        DaoPhysicsLayer::Terrain.bit() | DaoPhysicsLayer::StaticWorld.bit()
            | DaoPhysicsLayer::DynamicWorld.bit() | DaoPhysicsLayer::Sensor.bit()
            | DaoPhysicsLayer::Gallery.bit(),
    )
}

/// Layers of interaction sensors.
pub fn sensor_layers() -> (r: CollisionLayers)
    ensures
        r == sensor_config(),
{
    CollisionLayers::from_bits(DaoPhysicsLayer::Sensor.bit(), DaoPhysicsLayer::Player.bit())
}

/// Layers of gallery exhibits.
pub fn gallery_layers() -> (r: CollisionLayers)
    ensures
        r == gallery_config(),
{
    CollisionLayers::from_bits(
        DaoPhysicsLayer::Gallery.bit(),
        DaoPhysicsLayer::Player.bit() | DaoPhysicsLayer::Sensor.bit(),
    )
}

/// Mask of the player's forward probe ray.
pub fn forward_query_mask() -> (r: LayerMask)
    ensures
        r.0 == forward_query_bits(),
{
    LayerMask(
        DaoPhysicsLayer::StaticWorld.bit() | DaoPhysicsLayer::DynamicWorld.bit()
            | DaoPhysicsLayer::Sensor.bit() | DaoPhysicsLayer::Gallery.bit(),
    )
}


/// Which collider families touch each other: the player collides with the
/// static world, the terrain, sensors and exhibits; sensors react to the
/// player only (not even gallery exhibits, which filter for sensors but are
/// not filtered by them); terrain and static blockers ignore each other; the forward
/// probe sees blockers and sensors but not the player or the terrain.
pub proof fn lemma_collision_matrix()
    ensures
        player_config().interacts(static_world_config()),
        player_config().interacts(terrain_config()),
        player_config().interacts(sensor_config()),
        player_config().interacts(gallery_config()),
        !terrain_config().interacts(static_world_config()),
        !sensor_config().interacts(static_world_config()),
        !sensor_config().interacts(terrain_config()),
        !sensor_config().interacts(gallery_config()),
        forward_query_bits() & DaoPhysicsLayer::StaticWorld.layer_bit() != 0,
        forward_query_bits() & DaoPhysicsLayer::Sensor.layer_bit() != 0,
        forward_query_bits() & DaoPhysicsLayer::Player.layer_bit() == 0,
        forward_query_bits() & DaoPhysicsLayer::Terrain.layer_bit() == 0,
{
    assert(2u32 & (2u32 | 16u32 | 64u32) != 0u32) by (bit_vector);
    assert(8u32 & (4u32 | 8u32 | 16u32 | 32u32 | 64u32) != 0u32) by (bit_vector);
    assert(2u32 & (2u32 | 16u32) != 0u32) by (bit_vector);
    assert(4u32 & (4u32 | 8u32 | 16u32 | 32u32 | 64u32) != 0u32) by (bit_vector);
    assert(2u32 & 2u32 != 0u32) by (bit_vector);
    assert(32u32 & (4u32 | 8u32 | 16u32 | 32u32 | 64u32) != 0u32) by (bit_vector);
    assert(2u32 & (2u32 | 32u32) != 0u32) by (bit_vector);
    assert(64u32 & (4u32 | 8u32 | 16u32 | 32u32 | 64u32) != 0u32) by (bit_vector);
    assert(4u32 & (2u32 | 16u32 | 64u32) == 0u32) by (bit_vector);
    assert(32u32 & (2u32 | 16u32 | 64u32) == 0u32) by (bit_vector);
    assert(32u32 & (2u32 | 16u32) == 0u32) by (bit_vector);
    assert(32u32 & (2u32 | 32u32) != 0u32) by (bit_vector);
    assert(64u32 & 2u32 == 0u32) by (bit_vector);
    assert((8u32 | 16u32 | 32u32 | 64u32) & 8u32 != 0u32) by (bit_vector);
    assert((8u32 | 16u32 | 32u32 | 64u32) & 32u32 != 0u32) by (bit_vector);
    assert((8u32 | 16u32 | 32u32 | 64u32) & 2u32 == 0u32) by (bit_vector);
    assert((8u32 | 16u32 | 32u32 | 64u32) & 4u32 == 0u32) by (bit_vector);
}


/// The physics engine the game runs on.
#[derive(Debug, Clone, Copy, PartialEq, Eq, Structural)]
pub enum PhysicsEngineChoice {
    Avian,
}

/// How the player character is moved by the physics route.
#[derive(Debug, Clone, Copy, PartialEq, Eq, Structural)]
pub enum PhysicsCharacterControllerRoute {
    TransitionalKinematicCapsule,
}

/// Where terrain collision comes from.
#[derive(Debug, Clone, Copy, PartialEq, Eq, Structural)]
pub enum TerrainPhysicsSource {
    StreamingHeightfieldFromWorldMap,
}

/// The chosen physics route and the notes that justify it.
#[derive(Debug)]
pub struct PhysicsRoute {
    pub engine: PhysicsEngineChoice,
    pub character_controller: PhysicsCharacterControllerRoute,
    pub terrain_source: TerrainPhysicsSource,
    pub notes: Vec<&'static str>,
}

impl Default for PhysicsRoute {
    /// The route the game ships with: Avian, a kinematic capsule and terrain
    /// heightfields streamed from the world map, with three notes.
    fn default() -> (r: Self)
        ensures
            r.engine == PhysicsEngineChoice::Avian,
            r.character_controller == PhysicsCharacterControllerRoute::TransitionalKinematicCapsule,
            r.terrain_source == TerrainPhysicsSource::StreamingHeightfieldFromWorldMap,
            r.notes@.len() == 3,
            r.notes@[0]@ == "Rapier 0.33.0 and Avian 0.6.1 both support Bevy 0.18."@,
            r.notes@[1]@
                == "Avian is selected for ECS-native components, spatial queries, sensors, and debug gizmos."@,
            r.notes@[2]@
                == "Existing terrain sampling remains the height and biome authority during migration."@,
    {
        let mut notes: Vec<&'static str> = Vec::new();
        notes.push("Rapier 0.33.0 and Avian 0.6.1 both support Bevy 0.18.");
        notes.push(
            "Avian is selected for ECS-native components, spatial queries, sensors, and debug gizmos.",
        );
        notes.push(
            "Existing terrain sampling remains the height and biome authority during migration.",
        );
        PhysicsRoute {
            engine: PhysicsEngineChoice::Avian,
            character_controller: PhysicsCharacterControllerRoute::TransitionalKinematicCapsule,
            terrain_source: TerrainPhysicsSource::StreamingHeightfieldFromWorldMap,
            notes,
        }
    }
}

/// The text that records why the physics engine was chosen.
pub open spec fn engine_summary_text() -> Seq<char> {
    "Selected Avian 0.6.1 for Bevy 0.18: ECS-native rigid bodies, colliders, sensors, spatial queries, and debug gizmos. Rapier 0.33.0 remains a viable fallback if the project later needs Rapier-specific joints or tooling."@
}

/// Summary of the selected physics engine route.
pub fn selected_engine_summary() -> (r: &'static str)
    ensures
        r@ == engine_summary_text(),
{
    "Selected Avian 0.6.1 for Bevy 0.18: ECS-native rigid bodies, colliders, sensors, spatial queries, and debug gizmos. Rapier 0.33.0 remains a viable fallback if the project later needs Rapier-specific joints or tooling."
}

/// What kind of sensor a trigger collider is.
#[derive(Debug, Clone, Copy, PartialEq, Eq, Structural)]
pub enum DaoSensorKind {
    Interaction,
    GalleryExhibit,
    RegionGate,
    Omen,
}

/// The role a collider plays in the physics world.
#[derive(Debug, Clone, Copy, PartialEq, Eq, Structural)]
pub enum DaoColliderRole {
    CharacterCapsule,
    TerrainHeightfield,
    StaticBlocker,
    InteractionSensor,
    DynamicBody,
}

/// What a collider was built from.
#[derive(Debug, Clone, Copy, PartialEq, Eq, Structural)]
pub enum DaoColliderSource {
    Player,
    Terrain,
    ProceduralAsset,
    VillageProxy,
    MaterialGallery,
}

/// Classification attached to every collider the game spawns.
#[derive(Debug, Clone, Copy, PartialEq, Eq, Structural)]
pub struct DaoCollider {
    pub layer: DaoPhysicsLayer,
    pub role: DaoColliderRole,
    pub source: DaoColliderSource,
}

/// Marks a sensor collider with its kind.
#[derive(Debug, Clone, Copy, PartialEq, Eq, Structural)]
pub struct DaoPhysicsSensor {
    pub kind: DaoSensorKind,
}

/// Marks the terrain heightfield collider of one chunk.
#[derive(Debug, Clone, Copy, PartialEq, Eq, Structural)]
pub struct DaoPhysicsTerrainCollider {
    pub x: i32,
    pub z: i32,
}

/// How a procedural asset wants to collide.
#[derive(Debug, Clone, Copy, PartialEq, Eq, Structural)]
pub enum ProceduralCollision {
    NoCollision,
    VisualOnly,
    SimpleBlocker,
    InteractionProxy,
}

/// Whether a physics body is fixed or moved by the game.
#[derive(Debug, Clone, Copy, PartialEq, Eq, Structural)]
pub enum PhysicsBodyKind {
    Static,
    Kinematic,
}

/// The collider shape chosen for a procedural asset; the extents of each
/// shape are sized from the asset's dimensions outside this module.
#[derive(Debug, Clone, Copy, PartialEq, Eq, Structural)]
pub enum PhysicsColliderRule {
    NoCollider,
    StaticCuboid,
    InteractionSensor,
    CharacterCapsule,
}

impl PhysicsColliderRule {
    /// The rule for an asset's collision mode: no collider for visual-only
    /// assets, a static box for blockers, and for interaction proxies a
    /// capsule when the asset is a character, a sensor box otherwise.
    pub fn for_collision(collision: ProceduralCollision, character: bool) -> (r: Self)
        ensures
            r == (match collision {
                ProceduralCollision::NoCollision | ProceduralCollision::VisualOnly => PhysicsColliderRule::NoCollider,
                ProceduralCollision::SimpleBlocker => PhysicsColliderRule::StaticCuboid,
                ProceduralCollision::InteractionProxy => if character {
                    PhysicsColliderRule::CharacterCapsule
                } else {
                    PhysicsColliderRule::InteractionSensor
                },
            }),
    {
        match collision {
            ProceduralCollision::NoCollision | ProceduralCollision::VisualOnly => PhysicsColliderRule::NoCollider,
            ProceduralCollision::SimpleBlocker => PhysicsColliderRule::StaticCuboid,
            ProceduralCollision::InteractionProxy => {
                if character {
                    PhysicsColliderRule::CharacterCapsule
                } else {
                    PhysicsColliderRule::InteractionSensor
                }
            },
        }
    }

    /// The collider role a rule gives; `NoCollider` builds none.
    pub open spec fn role_of(self) -> Option<DaoColliderRole> {
        match self {
            PhysicsColliderRule::NoCollider => None,
            PhysicsColliderRule::StaticCuboid => Some(DaoColliderRole::StaticBlocker),
            PhysicsColliderRule::InteractionSensor => Some(DaoColliderRole::InteractionSensor),
            PhysicsColliderRule::CharacterCapsule => Some(DaoColliderRole::DynamicBody),
        }
    }

    /// The collider role of the rule.
    pub fn role(self) -> (r: Option<DaoColliderRole>)
        ensures
            r == self.role_of(),
    {
        match self {
            PhysicsColliderRule::NoCollider => None,
            PhysicsColliderRule::StaticCuboid => Some(DaoColliderRole::StaticBlocker),
            PhysicsColliderRule::InteractionSensor => Some(DaoColliderRole::InteractionSensor),
            PhysicsColliderRule::CharacterCapsule => Some(DaoColliderRole::DynamicBody),
        }
    }

    /// Only interaction sensor boxes are sensors.
    pub fn is_sensor(self) -> (r: bool)
        ensures
            r == (self == PhysicsColliderRule::InteractionSensor),
    {
        match self {
            PhysicsColliderRule::InteractionSensor => true,
            _ => false,
        }
    }

    /// Character capsules are kinematic; every other collider is static.
    pub fn rigid_body(self) -> (r: PhysicsBodyKind)
        ensures
            r == (if self == PhysicsColliderRule::CharacterCapsule {
                PhysicsBodyKind::Kinematic
            } else {
                PhysicsBodyKind::Static
            }),
    {
        match self {
            PhysicsColliderRule::CharacterCapsule => PhysicsBodyKind::Kinematic,
            _ => PhysicsBodyKind::Static,
        }
    }

    /// The classification of a procedural asset's collider: sensors live on
    /// the sensor layer, every other rule on the static world layer.
    pub fn procedural_collider(self) -> (r: Option<DaoCollider>)
        ensures
            self == PhysicsColliderRule::NoCollider <==> r is None,
            r matches Some(c) ==> {
                &&& Some(c.role) == self.role_of()
                &&& c.source == DaoColliderSource::ProceduralAsset
                &&& c.layer == (if self == PhysicsColliderRule::InteractionSensor {
                    DaoPhysicsLayer::Sensor
                } else {
                    DaoPhysicsLayer::StaticWorld
                })
            },
    {
        match self.role() {
            None => None,
            Some(role) => {
                let layer = if self.is_sensor() {
                    DaoPhysicsLayer::Sensor
                } else {
                    DaoPhysicsLayer::StaticWorld
                };
                Some(DaoCollider { layer, role, source: DaoColliderSource::ProceduralAsset })
            },
        }
    }
}

/// FNV-1a over a byte sequence, 64-bit variant.
pub open spec fn fnv1a_spec(bytes: Seq<u8>) -> u64
    decreases bytes.len(),
{
    if bytes.len() == 0 {
        0xcbf2_9ce4_8422_2325u64
    } else {
        vstd::wrapping::u64_specs::wrapping_mul(
            fnv1a_spec(bytes.drop_last()) ^ (bytes.last() as u64),
            0x0000_0100_0000_01b3u64,
        )
    }
}

/// 64-bit FNV-1a hash of a byte string.
pub fn fnv1a_64(bytes: &[u8]) -> (r: u64)
    ensures
        r == fnv1a_spec(bytes@),
{
    let mut value: u64 = 0xcbf2_9ce4_8422_2325u64;
    let mut i: usize = 0;
    while i < bytes.len()
        invariant
            i <= bytes@.len(),
            value == fnv1a_spec(bytes@.take(i as int)),
        decreases bytes@.len() - i,
    {
        assert(bytes@.take(i as int + 1).drop_last() =~= bytes@.take(i as int));
        value = value ^ (bytes[i] as u64);
        value = value.wrapping_mul(0x0000_0100_0000_01b3u64);
        i = i + 1;
    }
    assert(bytes@.take(bytes@.len() as int) =~= bytes@);
    value
}

/// The grid coordinate of a terrain collider.
pub open spec fn terrain_coord(c: DaoPhysicsTerrainCollider) -> (i32, i32) {
    (c.x, c.z)
}

/// The distinct chunk coordinates of terrain colliders, each once, in the
/// order of first appearance.
pub fn unique_terrain_coords(colliders: &[DaoPhysicsTerrainCollider]) -> (r: Vec<(i32, i32)>)
    ensures
        r@.no_duplicates(),
        forall|c: (i32, i32)| r@.contains(c) <==> exists|i: int|
            0 <= i < colliders@.len() && terrain_coord(#[trigger] colliders@[i]) == c,
{
    let mut out: Vec<(i32, i32)> = Vec::new();
    let mut i: usize = 0;
    while i < colliders.len()
        invariant
            i <= colliders@.len(),
            out@.no_duplicates(),
            forall|c: (i32, i32)| out@.contains(c) <==> exists|j: int|
                0 <= j < i && terrain_coord(#[trigger] colliders@[j]) == c,
        decreases colliders@.len() - i,
    {
        let coord = (colliders[i].x, colliders[i].z);
        let ghost prev = out@;
        let mut found = false;
        let mut k: usize = 0;
        while k < out.len()
            invariant
                k <= out@.len(),
                out@ == prev,
                found <==> exists|m: int| 0 <= m < k && out@[m] == coord,
            decreases out@.len() - k,
        {
            if out[k].0 == coord.0 && out[k].1 == coord.1 {
                found = true;
            }
            k = k + 1;
        }
        assert(found <==> prev.contains(coord));
        if !found {
            out.push(coord);
            assert(out@ == prev.push(coord));
        }
        assert(terrain_coord(colliders@[i as int]) == coord);
        assert forall|c: (i32, i32)| out@.contains(c) <==> exists|j: int|
            0 <= j < i + 1 && terrain_coord(#[trigger] colliders@[j]) == c by {
            if !found {
                if out@.contains(c) {
                    let m = choose|m: int| 0 <= m < out@.len() && out@[m] == c;
                    if m < prev.len() {
                        assert(prev.contains(c));
                    }
                }
                if prev.contains(c) {
                    let m = choose|m: int| 0 <= m < prev.len() && prev[m] == c;
                    assert(out@[m] == c);
                }
                if c == coord {
                    assert(out@[out@.len() - 1] == c);
                }
            }
        }
        i = i + 1;
    }
    out
}


/// A character as ASCII lowercasing leaves it.
pub open spec fn ascii_lower(c: char) -> char {
    if 'A' <= c && c <= 'Z' {
        ((c as u32) + 32) as char
    } else {
        c
    }
}

/// A text as ASCII lowercasing leaves it.
pub open spec fn ascii_lowered(text: Seq<char>) -> Seq<char> {
    text.map_values(|c: char| ascii_lower(c))
}

/// The physics debug switch is on when it is set to anything but `0`,
/// `false` or `off` (in any ASCII case).
pub open spec fn debug_switch_on(value: Option<Seq<char>>) -> bool {
    match value {
        None => false,
        Some(text) => {
            let lowered = ascii_lowered(text);
            lowered != "0"@ && lowered != "false"@ && lowered != "off"@
        },
    }
}

/// Whether the text lowercases to the word, given a word of lowercase
/// ASCII letters and digits.
fn lowers_to(text: &str, word: &str) -> (r: bool)
    requires
        forall|i: int| 0 <= i < word@.len() ==> ('a' <= #[trigger] word@[i] && word@[i] <= 'z') || ('0' <= word@[i]
            && word@[i] <= '9'),
    ensures
        r == (ascii_lowered(text@) == word@),
{
    let n = text.unicode_len();
    if n != word.unicode_len() {
        assert(ascii_lowered(text@).len() != word@.len());
        return false;
    }
    let mut i: usize = 0;
    while i < n
        invariant
            n == text@.len(),
            n == word@.len(),
            i <= n,
            forall|k: int| 0 <= k < word@.len() ==> ('a' <= #[trigger] word@[k] && word@[k] <= 'z') || ('0'
                <= word@[k] && word@[k] <= '9'),
            forall|k: int| 0 <= k < i ==> ascii_lower(#[trigger] text@[k]) == word@[k],
        decreases n - i,
    {
        let c = text.get_char(i);
        let w = word.get_char(i);
        let same = c == w || ('A' <= c && c <= 'Z' && (c as u32) + 32 == (w as u32));
        if !same {
            assert(ascii_lowered(text@)[i as int] != word@[i as int]);
            return false;
        }
        i = i + 1;
    }
    assert(ascii_lowered(text@) =~= word@);
    true
}

/// Whether physics debugging is switched on.
#[derive(Debug, Clone, Copy, PartialEq, Eq, Structural)]
pub struct PhysicsDebugState {
    pub enabled: bool,
}

impl PhysicsDebugState {
    /// Reads the debug switch: on when it is set to anything but `0`,
    /// `false` or `off` (in any ASCII case).
    pub fn from_switch(value: Option<&str>) -> (r: Self)
        ensures
            r.enabled == debug_switch_on(
                match value {
                    Some(text) => Some(text@),
                    None => None,
                },
            ),
    {
        match value {
            None => PhysicsDebugState { enabled: false },
            Some(text) => {
                proof {
                    reveal_strlit("0");
                    reveal_strlit("false");
                    reveal_strlit("off");
                }
                let off = lowers_to(text, "0") || lowers_to(text, "false") || lowers_to(text, "off");
                PhysicsDebugState { enabled: !off }
            },
        }
    }
}

} // verus!
