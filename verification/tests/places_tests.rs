use dao_game::places::{
    place_id, tags_for_place, MeaningfulPlace, MeaningfulPlaces, PlaceKind, PlaceTag,
};
use dao_game::world::{BiomeKind, WorldGridCoord};

#[test]
fn place_id_is_deterministic_and_kind_sensitive() {
    assert_eq!(
        place_id(10, -4, PlaceKind::AncientTree),
        place_id(10, -4, PlaceKind::AncientTree)
    );
    assert_ne!(
        place_id(10, -4, PlaceKind::AncientTree),
        place_id(10, -4, PlaceKind::StoneRing)
    );
}

#[test]
fn semantic_tags_match_place_kind() {
    for kind in PlaceKind::ALL {
        for high in [false, true] {
            for wet in [false, true] {
                let tags = tags_for_place(kind, high, wet);
                match kind {
                    PlaceKind::AncientTree => assert!(tags.contains(&PlaceTag::Grove)),
                    PlaceKind::SpringEye | PlaceKind::QuietBay => {
                        assert!(tags.contains(&PlaceTag::Water))
                    }
                    PlaceKind::RidgeGate => assert!(tags.contains(&PlaceTag::Threshold)),
                    PlaceKind::StoneRing => assert!(tags.contains(&PlaceTag::Memory)),
                }
            }
        }
    }
}

#[test]
fn place_tags_add_height_and_water_once() {
    assert_eq!(
        tags_for_place(PlaceKind::AncientTree, true, true),
        vec![
            PlaceTag::Shelter,
            PlaceTag::Grove,
            PlaceTag::Memory,
            PlaceTag::Height,
            PlaceTag::Water
        ]
    );
    assert_eq!(
        tags_for_place(PlaceKind::RidgeGate, true, false),
        vec![PlaceTag::Threshold, PlaceTag::Height]
    );
    assert_eq!(
        tags_for_place(PlaceKind::QuietBay, false, true),
        vec![PlaceTag::Water, PlaceTag::Stillness, PlaceTag::Memory]
    );
}

#[test]
fn place_id_mixes_negative_coordinates_by_sign_extension() {
    let expected = {
        let mut value = ((-1i32) as i64 as u64)
            .wrapping_mul(0x9E37_79B9_7F4A_7C15)
            .wrapping_add((2i32 as i64 as u64).wrapping_mul(0xBF58_476D_1CE4_E5B9))
            .wrapping_add(3u64.wrapping_mul(0x94D0_49BB_1331_11EB));
        value ^= value >> 30;
        value = value.wrapping_mul(0xBF58_476D_1CE4_E5B9);
        value ^= value >> 27;
        value = value.wrapping_mul(0x94D0_49BB_1331_11EB);
        value ^ (value >> 31)
    };
    assert_eq!(place_id(-1, 2, PlaceKind::QuietBay), expected);
}

#[test]
fn place_labels_name_every_kind() {
    let labels: Vec<&str> = PlaceKind::ALL.iter().map(|kind| kind.label()).collect();
    assert_eq!(labels, vec!["古树", "泉眼", "山脊门", "静水湾", "石阵"]);
}

fn place(id: u64, kind: PlaceKind) -> MeaningfulPlace {
    MeaningfulPlace {
        id,
        kind,
        grid: WorldGridCoord { x: 1, z: 2 },
        biome: BiomeKind::Meadow,
        tags: vec![PlaceTag::Memory],
    }
}

#[test]
fn place_lookups_find_active_and_nearest_places() {
    let places = MeaningfulPlaces {
        places: vec![place(3, PlaceKind::SpringEye), place(9, PlaceKind::StoneRing)],
        active_place_id: Some(9),
        nearest_place_id: Some(4),
    };
    assert_eq!(places.active_place().map(|p| p.kind), Some(PlaceKind::StoneRing));
    assert!(places.nearest_place().is_none());
    assert_eq!(places.place_by_id(3).map(|p| p.kind), Some(PlaceKind::SpringEye));
    assert!(places.place_by_id(5).is_none());
}
