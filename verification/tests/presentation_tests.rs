use dao_game::places::{MeaningfulPlace, MeaningfulPlaces, PlaceKind, PlaceTag};
use dao_game::presentation::{
    has_full_visual_baseline, journey_showcase, omen_for_place, presentation_order,
    scene_index_for_cycle, visual_baseline_count, PresentationJourneyStep,
    PresentationVisualSample, SceneCursor,
};
use dao_game::signs::OmenKind;
use dao_game::world::{BiomeKind, WorldGridCoord};

fn cycle(elapsed: f32, scene_duration: f32) -> usize {
    (elapsed / scene_duration).floor() as usize
}

#[test]
fn scene_index_wraps_across_full_cycle() {
    assert_eq!(scene_index_for_cycle(cycle(0.2, 7.0), 4), 0);
    assert_eq!(scene_index_for_cycle(cycle(7.2, 7.0), 4), 1);
    assert_eq!(scene_index_for_cycle(cycle(28.1, 7.0), 4), 0);
}

#[test]
fn journey_presentation_covers_first_playable_loop() {
    let places = MeaningfulPlaces {
        places: vec![MeaningfulPlace {
            id: 7,
            kind: PlaceKind::StoneRing,
            grid: WorldGridCoord { x: 18, z: -12 },
            biome: BiomeKind::Meadow,
            tags: vec![PlaceTag::Memory],
        }],
        active_place_id: Some(7),
        nearest_place_id: None,
    };

    let (place, beats) = journey_showcase(&places).expect("journey scenes");
    let steps: Vec<PresentationJourneyStep> = beats.iter().map(|(step, _)| *step).collect();

    assert_eq!(place.id, 7);
    assert_eq!(
        steps,
        vec![
            PresentationJourneyStep::Spawn,
            PresentationJourneyStep::Omen,
            PresentationJourneyStep::Approach,
            PresentationJourneyStep::Response,
            PresentationJourneyStep::Echo,
        ]
    );
    assert!(beats.iter().all(|(_, omen)| *omen == OmenKind::DawnLight));
}

#[test]
fn place_kind_maps_to_showcase_omen() {
    assert_eq!(omen_for_place(PlaceKind::AncientTree), OmenKind::GroveWhisper);
    assert_eq!(omen_for_place(PlaceKind::SpringEye), OmenKind::StillWater);
    assert_eq!(omen_for_place(PlaceKind::RidgeGate), OmenKind::SummitCall);
    assert_eq!(omen_for_place(PlaceKind::StoneRing), OmenKind::DawnLight);
}

#[test]
fn visual_baseline_matrix_defines_six_fixed_samples() {
    let labels: Vec<&'static str> = PresentationVisualSample::BASELINE
        .iter()
        .map(|sample| sample.label())
        .collect();

    assert_eq!(
        labels,
        vec![
            "village-dawn",
            "dream-after-sea-wind",
            "mist-boundary",
            "sandstorm-pyramid",
            "oasis-ruins",
            "night-sea",
        ]
    );
    assert!(PresentationVisualSample::BASELINE
        .iter()
        .all(|sample| sample.is_visual_baseline()));
}

#[test]
fn visual_baseline_scenes_sort_before_functional_showcases() {
    let samples = vec![
        PresentationVisualSample::Functional,
        PresentationVisualSample::OasisRuins,
        PresentationVisualSample::VillageDawn,
        PresentationVisualSample::NightSea,
    ];

    let order = presentation_order(&samples);

    assert_eq!(
        order.iter().map(|index| samples[*index]).collect::<Vec<_>>(),
        vec![
            PresentationVisualSample::VillageDawn,
            PresentationVisualSample::OasisRuins,
            PresentationVisualSample::NightSea,
            PresentationVisualSample::Functional,
        ]
    );
}

#[test]
fn visual_baseline_count_tracks_unique_samples() {
    let samples = vec![
        PresentationVisualSample::VillageDawn,
        PresentationVisualSample::VillageDawn,
        PresentationVisualSample::MistBoundary,
        PresentationVisualSample::Functional,
    ];

    assert_eq!(visual_baseline_count(&samples), 2);
    assert!(!has_full_visual_baseline(&samples));
    let mut full: Vec<PresentationVisualSample> = PresentationVisualSample::BASELINE.to_vec();
    full.push(PresentationVisualSample::Functional);
    assert!(has_full_visual_baseline(&full));
}

#[test]
fn equal_samples_keep_build_order() {
    let samples = vec![
        PresentationVisualSample::Functional,
        PresentationVisualSample::MistBoundary,
        PresentationVisualSample::Functional,
        PresentationVisualSample::MistBoundary,
    ];
    assert_eq!(presentation_order(&samples), vec![1, 3, 0, 2]);
    assert!(presentation_order(&[]).is_empty());
}

#[test]
fn scene_cursor_sets_up_each_new_scene_once() {
    let mut cursor = SceneCursor::new();
    assert!(cursor.enter_cycle(0, 3));
    assert!(!cursor.enter_cycle(0, 3));
    assert!(cursor.enter_cycle(4, 3));
    assert_eq!(cursor.current_scene_index, 1);
    assert!(cursor.enter_cycle(3, 3));
    assert_eq!(cursor.current_scene_index, 0);
    assert_eq!(scene_index_for_cycle(9, 0), 0);
}

#[test]
fn journey_showcase_falls_back_to_the_first_place() {
    let places = MeaningfulPlaces {
        places: vec![MeaningfulPlace {
            id: 2,
            kind: PlaceKind::SpringEye,
            grid: WorldGridCoord { x: 0, z: 0 },
            biome: BiomeKind::Water,
            tags: vec![PlaceTag::Water],
        }],
        active_place_id: Some(99),
        nearest_place_id: None,
    };
    let (place, beats) = journey_showcase(&places).expect("first place");
    assert_eq!(place.id, 2);
    assert!(beats.iter().all(|(_, omen)| *omen == OmenKind::StillWater));
    let empty = MeaningfulPlaces {
        places: vec![],
        active_place_id: None,
        nearest_place_id: None,
    };
    assert!(journey_showcase(&empty).is_none());
}
