//! Meaningful places: their kinds and names, stable identifiers, the
//! semantic tags each place carries, and lookups in the chosen set.

use vstd::prelude::*;

use crate::world::{BiomeKind, WorldGridCoord};

verus! {

/// The kinds of meaningful place the world offers.
#[derive(Debug, Clone, Copy, PartialEq, Eq, Hash, Structural)]
pub enum PlaceKind {
    AncientTree,
    SpringEye,
    RidgeGate,
    QuietBay,
    StoneRing,
}

impl PlaceKind {
    /// Every kind, in declaration order.
    pub const ALL: [PlaceKind; 5] = [
        PlaceKind::AncientTree,
        PlaceKind::SpringEye,
        PlaceKind::RidgeGate,
        PlaceKind::QuietBay,
        PlaceKind::StoneRing,
    ];

    /// Declaration position of the kind.
    pub open spec fn kind_index(self) -> u64 {
        match self {
            PlaceKind::AncientTree => 0,
            PlaceKind::SpringEye => 1,
            PlaceKind::RidgeGate => 2,
            PlaceKind::QuietBay => 3,
            PlaceKind::StoneRing => 4,
        }
    }

    /// Declaration position of the kind.
    pub fn index(self) -> (r: u64)
        ensures
            r == self.kind_index(),
    {
        match self {
            PlaceKind::AncientTree => 0,
            PlaceKind::SpringEye => 1,
            PlaceKind::RidgeGate => 2,
            PlaceKind::QuietBay => 3,
            PlaceKind::StoneRing => 4,
        }
    }

    /// The displayed name of the kind.
    pub open spec fn label_text(self) -> Seq<char> {
        match self {
            PlaceKind::AncientTree => "古树"@,
            PlaceKind::SpringEye => "泉眼"@,
            PlaceKind::RidgeGate => "山脊门"@,
            PlaceKind::QuietBay => "静水湾"@,
            PlaceKind::StoneRing => "石阵"@,
        }
    }

    /// The displayed name of the kind.
    pub fn label(self) -> (r: &'static str)
        ensures
            r@ == self.label_text(),
    {
        match self {
            PlaceKind::AncientTree => "古树",
            PlaceKind::SpringEye => "泉眼",
            PlaceKind::RidgeGate => "山脊门",
            PlaceKind::QuietBay => "静水湾",
            PlaceKind::StoneRing => "石阵",
        }
    }
}

/// What a place means to the wanderer.
#[derive(Debug, Clone, Copy, PartialEq, Eq, Hash, Structural)]
pub enum PlaceTag {
    Shelter,
    Water,
    Threshold,
    Stillness,
    Memory,
    Height,
    Grove,
}

/// The stable identifier of a place of a kind at a tile: the tile and the
/// kind mixed into one 64-bit value, coordinates sign-extended.
pub open spec fn place_id_spec(x: i32, z: i32, kind: PlaceKind) -> u64 {
    let v0 = vstd::wrapping::u64_specs::wrapping_add(
        vstd::wrapping::u64_specs::wrapping_add(
            vstd::wrapping::u64_specs::wrapping_mul((x as i64) as u64, 0x9E37_79B9_7F4A_7C15u64),
            vstd::wrapping::u64_specs::wrapping_mul((z as i64) as u64, 0xBF58_476D_1CE4_E5B9u64),
        ),
        vstd::wrapping::u64_specs::wrapping_mul(kind.kind_index(), 0x94D0_49BB_1331_11EBu64),
    );
    let v1 = v0 ^ (v0 >> 30u64);
    let v2 = vstd::wrapping::u64_specs::wrapping_mul(v1, 0xBF58_476D_1CE4_E5B9u64);
    let v3 = v2 ^ (v2 >> 27u64);
    let v4 = vstd::wrapping::u64_specs::wrapping_mul(v3, 0x94D0_49BB_1331_11EBu64);
    v4 ^ (v4 >> 31u64)
}

/// The stable identifier of a place of a kind at a tile.
pub fn place_id(x: i32, z: i32, kind: PlaceKind) -> (r: u64)
    ensures
        r == place_id_spec(x, z, kind),
{
    let ux = x as i64 as u64;
    let uz = z as i64 as u64;
    let mut value = ux.wrapping_mul(0x9E37_79B9_7F4A_7C15u64).wrapping_add(
        uz.wrapping_mul(0xBF58_476D_1CE4_E5B9u64),
    ).wrapping_add(kind.index().wrapping_mul(0x94D0_49BB_1331_11EBu64));
    value = value ^ (value >> 30u64);
    value = value.wrapping_mul(0xBF58_476D_1CE4_E5B9u64);
    value = value ^ (value >> 27u64);
    value = value.wrapping_mul(0x94D0_49BB_1331_11EBu64);
    value ^ (value >> 31u64)
}

/// The tags every place of a kind carries.
pub open spec fn base_tags(kind: PlaceKind) -> Seq<PlaceTag> {
    match kind {
        PlaceKind::AncientTree => seq![PlaceTag::Shelter, PlaceTag::Grove, PlaceTag::Memory],
        PlaceKind::SpringEye => seq![PlaceTag::Water, PlaceTag::Stillness],
        PlaceKind::RidgeGate => seq![PlaceTag::Threshold, PlaceTag::Height],
        PlaceKind::QuietBay => seq![PlaceTag::Water, PlaceTag::Stillness, PlaceTag::Memory],
        PlaceKind::StoneRing => seq![PlaceTag::Threshold, PlaceTag::Memory],
    }
}

/// The tag that says what a kind of place is about.
pub open spec fn defining_tag(kind: PlaceKind) -> PlaceTag {
    match kind {
        PlaceKind::AncientTree => PlaceTag::Grove,
        PlaceKind::SpringEye => PlaceTag::Water,
        PlaceKind::RidgeGate => PlaceTag::Threshold,
        PlaceKind::QuietBay => PlaceTag::Water,
        PlaceKind::StoneRing => PlaceTag::Memory,
    }
}

/// The tags of a place: those of its kind, then `Height` on high ground and
/// `Water` on wet ground, each added only when not already there.
pub open spec fn place_tags_spec(kind: PlaceKind, high_ground: bool, wet_ground: bool) -> Seq<PlaceTag> {
    let base = base_tags(kind);
    let with_height = if high_ground && !base.contains(PlaceTag::Height) {
        base.push(PlaceTag::Height)
    } else {
        base
    };
    if wet_ground && !with_height.contains(PlaceTag::Water) {
        with_height.push(PlaceTag::Water)
    } else {
        with_height
    }
}

/// Whether the tag is listed.
fn tags_contain(tags: &Vec<PlaceTag>, tag: PlaceTag) -> (r: bool)
    ensures
        r == tags@.contains(tag),
{
    let mut i: usize = 0;
    while i < tags.len()
        invariant
            i <= tags@.len(),
            forall|k: int| 0 <= k < i ==> tags@[k] != tag,
        decreases tags@.len() - i,
    {
        if tags[i] == tag {
            assert(tags@[i as int] == tag);
            return true;
        }
        i = i + 1;
    }
    false
}

/// What a place's tags say. Every kind leads with its own tags, in this
/// order: an ancient tree shelter, grove and memory; a spring eye water and
/// stillness; a ridge gate threshold and height; a quiet bay water,
/// stillness and memory; a stone ring threshold and memory. A place is
/// tagged with height exactly when it stands on high ground or is a ridge
/// gate, and with water exactly when its ground is wet or it is a spring
/// eye or a quiet bay. No tag is listed twice, and no tag is added but
/// those two.
pub proof fn lemma_place_tags(kind: PlaceKind, high_ground: bool, wet_ground: bool)
    ensures
        ({
            let t = place_tags_spec(kind, high_ground, wet_ground);
            &&& kind == PlaceKind::AncientTree ==> t.len() >= 3 && t.take(3) == seq![
                PlaceTag::Shelter,
                PlaceTag::Grove,
                PlaceTag::Memory,
            ]
            &&& kind == PlaceKind::SpringEye ==> t.len() >= 2 && t.take(2) == seq![
                PlaceTag::Water,
                PlaceTag::Stillness,
            ]
            &&& kind == PlaceKind::RidgeGate ==> t.len() >= 2 && t.take(2) == seq![
                PlaceTag::Threshold,
                PlaceTag::Height,
            ]
            &&& kind == PlaceKind::QuietBay ==> t.len() >= 3 && t.take(3) == seq![
                PlaceTag::Water,
                PlaceTag::Stillness,
                PlaceTag::Memory,
            ]
            &&& kind == PlaceKind::StoneRing ==> t.len() >= 2 && t.take(2) == seq![
                PlaceTag::Threshold,
                PlaceTag::Memory,
            ]
            &&& t.contains(PlaceTag::Height) <==> high_ground || kind == PlaceKind::RidgeGate
            &&& t.contains(PlaceTag::Water) <==> wet_ground || kind == PlaceKind::SpringEye || kind
                == PlaceKind::QuietBay
            &&& t.no_duplicates()
            &&& forall|i: int|
                0 <= i < t.len() ==> base_tags(kind).contains(#[trigger] t[i]) || t[i] == PlaceTag::Height
                    || t[i] == PlaceTag::Water
        }),
{
    let base = base_tags(kind);
    let t = place_tags_spec(kind, high_ground, wet_ground);
    assert(base.no_duplicates());
    assert(base.contains(PlaceTag::Height) <==> kind == PlaceKind::RidgeGate) by {
        if kind == PlaceKind::RidgeGate {
            assert(base[1] == PlaceTag::Height);
        }
    }
    assert(base.contains(PlaceTag::Water) <==> (kind == PlaceKind::SpringEye || kind == PlaceKind::QuietBay)) by {
        if kind == PlaceKind::SpringEye || kind == PlaceKind::QuietBay {
            assert(base[0] == PlaceTag::Water);
        }
    }
    let with_height = if high_ground && !base.contains(PlaceTag::Height) {
        base.push(PlaceTag::Height)
    } else {
        base
    };
    if high_ground && !base.contains(PlaceTag::Height) {
        assert(with_height[base.len() as int] == PlaceTag::Height);
    }
    assert(with_height.contains(PlaceTag::Height) <==> high_ground || kind == PlaceKind::RidgeGate);
    assert(with_height.contains(PlaceTag::Water) <==> (kind == PlaceKind::SpringEye || kind == PlaceKind::QuietBay)) by {
        if with_height.contains(PlaceTag::Water) {
            let i = choose|i: int| 0 <= i < with_height.len() && with_height[i] == PlaceTag::Water;
            if i < base.len() {
                assert(base[i] == PlaceTag::Water);
            }
        }
        if kind == PlaceKind::SpringEye || kind == PlaceKind::QuietBay {
            assert(with_height[0] == PlaceTag::Water);
        }
    }
    if wet_ground && !with_height.contains(PlaceTag::Water) {
        assert(t[with_height.len() as int] == PlaceTag::Water);
        if t.contains(PlaceTag::Height) {
            let i = choose|i: int| 0 <= i < t.len() && t[i] == PlaceTag::Height;
            if i < with_height.len() {
                assert(with_height[i] == PlaceTag::Height);
            }
        }
        if high_ground || kind == PlaceKind::RidgeGate {
            let i = choose|i: int| 0 <= i < with_height.len() && with_height[i] == PlaceTag::Height;
            assert(t[i] == PlaceTag::Height);
        }
        if wet_ground || kind == PlaceKind::SpringEye || kind == PlaceKind::QuietBay {
            assert(t.contains(PlaceTag::Water));
        }
    }
    assert forall|i: int| 0 <= i < t.len() implies base.contains(#[trigger] t[i]) || t[i] == PlaceTag::Height
        || t[i] == PlaceTag::Water by {
        if i < base.len() {
            assert(t[i] == base[i]);
        }
    }
    assert(t.take(base.len() as int) =~= base);
}

/// The tags of a place of a kind; `high_ground` and `wet_ground` say
/// whether its tile stands above 2.4 and has moisture above 0.68.
pub fn tags_for_place(kind: PlaceKind, high_ground: bool, wet_ground: bool) -> (r: Vec<PlaceTag>)
    ensures
        r@ == place_tags_spec(kind, high_ground, wet_ground),
        kind == PlaceKind::SpringEye ==> r@.len() >= 2 && r@[0] == PlaceTag::Water && r@[1] == PlaceTag::Stillness,
        r@.contains(PlaceTag::Height) <==> high_ground || kind == PlaceKind::RidgeGate,
        r@.contains(PlaceTag::Water) <==> wet_ground || kind == PlaceKind::SpringEye || kind == PlaceKind::QuietBay,
        r@.no_duplicates(),
{
    proof {
        lemma_place_tags(kind, high_ground, wet_ground);
    }
    let mut tags = match kind {
        PlaceKind::AncientTree => vec![PlaceTag::Shelter, PlaceTag::Grove, PlaceTag::Memory],
        PlaceKind::SpringEye => vec![PlaceTag::Water, PlaceTag::Stillness],
        PlaceKind::RidgeGate => vec![PlaceTag::Threshold, PlaceTag::Height],
        PlaceKind::QuietBay => vec![PlaceTag::Water, PlaceTag::Stillness, PlaceTag::Memory],
        PlaceKind::StoneRing => vec![PlaceTag::Threshold, PlaceTag::Memory],
    };
    assert(tags@ == base_tags(kind));
    if high_ground && !tags_contain(&tags, PlaceTag::Height) {
        tags.push(PlaceTag::Height);
    }
    if wet_ground && !tags_contain(&tags, PlaceTag::Water) {
        tags.push(PlaceTag::Water);
    }
    tags
}

/// Every place carries the tag that defines its kind, never lists a tag
/// twice, and is tagged `Height` on high ground and `Water` on wet ground.
pub proof fn lemma_place_tags_are_meaningful(kind: PlaceKind, high_ground: bool, wet_ground: bool)
    ensures
        place_tags_spec(kind, high_ground, wet_ground).contains(defining_tag(kind)),
        high_ground ==> place_tags_spec(kind, high_ground, wet_ground).contains(PlaceTag::Height),
        wet_ground ==> place_tags_spec(kind, high_ground, wet_ground).contains(PlaceTag::Water),
        forall|i: int, j: int|
            0 <= i < j < place_tags_spec(kind, high_ground, wet_ground).len() ==> place_tags_spec(
                kind,
                high_ground,
                wet_ground,
            )[i] != place_tags_spec(kind, high_ground, wet_ground)[j],
{
    let base = base_tags(kind);
    let with_height = if high_ground && !base.contains(PlaceTag::Height) {
        base.push(PlaceTag::Height)
    } else {
        base
    };
    let tags = place_tags_spec(kind, high_ground, wet_ground);
    match kind {
        PlaceKind::AncientTree => {
            assert(base[1] == PlaceTag::Grove);
        },
        PlaceKind::SpringEye => {
            assert(base[0] == PlaceTag::Water);
        },
        PlaceKind::RidgeGate => {
            assert(base[0] == PlaceTag::Threshold);
            assert(base[1] == PlaceTag::Height);
        },
        PlaceKind::QuietBay => {
            assert(base[0] == PlaceTag::Water);
        },
        PlaceKind::StoneRing => {
            assert(base[1] == PlaceTag::Memory);
        },
    }
    assert(base.contains(defining_tag(kind)));
    assert(with_height.contains(defining_tag(kind))) by {
        let k = choose|k: int| 0 <= k < base.len() && base[k] == defining_tag(kind);
        assert(with_height[k] == defining_tag(kind));
    }
    assert(tags.contains(defining_tag(kind))) by {
        let k = choose|k: int| 0 <= k < with_height.len() && with_height[k] == defining_tag(kind);
        assert(tags[k] == defining_tag(kind));
    }
    if high_ground {
        assert(with_height.contains(PlaceTag::Height)) by {
            if base.contains(PlaceTag::Height) {
                let k = choose|k: int| 0 <= k < base.len() && base[k] == PlaceTag::Height;
                assert(with_height[k] == PlaceTag::Height);
            } else {
                assert(with_height[base.len() as int] == PlaceTag::Height);
            }
        }
        assert(tags.contains(PlaceTag::Height)) by {
            let k = choose|k: int| 0 <= k < with_height.len() && with_height[k] == PlaceTag::Height;
            assert(tags[k] == PlaceTag::Height);
        }
    }
    if wet_ground {
        assert(tags.contains(PlaceTag::Water)) by {
            if with_height.contains(PlaceTag::Water) {
                let k = choose|k: int| 0 <= k < with_height.len() && with_height[k] == PlaceTag::Water;
                assert(tags[k] == PlaceTag::Water);
            } else {
                assert(tags[with_height.len() as int] == PlaceTag::Water);
            }
        }
    }
    assert forall|i: int, j: int| 0 <= i < j < base.len() implies base[i] != base[j] by {
    }
    assert forall|i: int, j: int| 0 <= i < j < with_height.len() implies with_height[i] != with_height[j] by {
        if j == base.len() {
            assert(base.contains(base[i]));
        }
    }
    assert forall|i: int, j: int| 0 <= i < j < tags.len() implies tags[i] != tags[j] by {
        if j == with_height.len() {
            assert(with_height[i] == tags[i]);
            assert(with_height.contains(with_height[i]));
        } else {
            assert(with_height[i] == tags[i]);
            assert(with_height[j] == tags[j]);
        }
    }
}

/// A place chosen in the world, as the game logic knows it.
#[derive(Debug, Clone, PartialEq, Eq)]
pub struct MeaningfulPlace {
    pub id: u64,
    pub kind: PlaceKind,
    pub grid: WorldGridCoord,
    pub biome: BiomeKind,
    pub tags: Vec<PlaceTag>,
}

/// The places of this session, the one the journey is heading for, and the
/// one nearest to the wanderer.
#[derive(Debug, Clone, PartialEq, Eq)]
pub struct MeaningfulPlaces {
    pub places: Vec<MeaningfulPlace>,
    pub active_place_id: Option<u64>,
    pub nearest_place_id: Option<u64>,
}

/// The position of the first place with the identifier, if any.
pub open spec fn first_place_with(places: Seq<MeaningfulPlace>, id: u64) -> Option<int> {
    if exists|i: int| 0 <= i < places.len() && places[i].id == id {
        Some(
            choose|i: int|
                0 <= i < places.len() && places[i].id == id && forall|j: int| 0 <= j < i ==> places[j].id != id,
        )
    } else {
        None
    }
}

impl MeaningfulPlaces {
    /// The first place with the identifier, if any.
    pub fn place_by_id(&self, id: u64) -> (r: Option<&MeaningfulPlace>)
        ensures
            match first_place_with(self.places@, id) {
                Some(i) => r == Some(&self.places@[i]),
                None => r is None,
            },
    {
        let mut i: usize = 0;
        while i < self.places.len()
            invariant
                i <= self.places@.len(),
                forall|j: int| 0 <= j < i ==> self.places@[j].id != id,
            decreases self.places@.len() - i,
        {
            if self.places[i].id == id {
                proof {
                    let c = choose|c: int|
                        0 <= c < self.places@.len() && self.places@[c].id == id && forall|j: int|
                            0 <= j < c ==> self.places@[j].id != id;
                    assert(self.places@[i as int].id == id);
                    if c < i {
                    } else if c > i {
                    }
                    assert(c == i);
                }
                return Some(&self.places[i]);
            }
            i = i + 1;
        }
        None
    }

    /// The place the journey is heading for, if it is listed.
    pub fn active_place(&self) -> (r: Option<&MeaningfulPlace>)
        ensures
            match self.active_place_id {
                None => r is None,
                Some(id) => match first_place_with(self.places@, id) {
                    Some(i) => r == Some(&self.places@[i]),
                    None => r is None,
                },
            },
    {
        match self.active_place_id {
            None => None,
            Some(id) => self.place_by_id(id),
        }
    }

    /// The place nearest to the wanderer, if it is listed.
    pub fn nearest_place(&self) -> (r: Option<&MeaningfulPlace>)
        ensures
            match self.nearest_place_id {
                None => r is None,
                Some(id) => match first_place_with(self.places@, id) {
                    Some(i) => r == Some(&self.places@[i]),
                    None => r is None,
                },
            },
    {
        match self.nearest_place_id {
            None => None,
            Some(id) => self.place_by_id(id),
        }
    }
}

} // verus!
