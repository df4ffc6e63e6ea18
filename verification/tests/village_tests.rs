use dao_game::village::{
    advance_herding, interact_with_flock, press_village_interaction, VillageInteraction, stable_actor_id, stable_house_id, use_house_door,
    village_actor_roster, village_house_ids, village_interaction_prompt, village_part_kind,
    HerdingInteraction, HerdingPhase, HerdingState, HouseOccupancy, HouseTransition,
    VillageActorKind, VillageBehavior, VillageHouseSnapshot, VillageVisualPartKind,
};

#[test]
fn village_roster_holds_flock_merchant_and_shepherd() {
    let actors = village_actor_roster(8);
    assert_eq!(
        actors
            .iter()
            .filter(|actor| actor.kind == VillageActorKind::Sheep)
            .count(),
        8
    );
    assert!(actors
        .iter()
        .any(|actor| actor.kind == VillageActorKind::Merchant));
    assert!(actors
        .iter()
        .any(|actor| actor.kind == VillageActorKind::Shepherd));
    assert_eq!(village_house_ids(5).len(), 5);
}

#[test]
fn village_roster_and_house_ids_are_deterministic() {
    assert_eq!(village_actor_roster(6), village_actor_roster(6));
    assert_eq!(village_house_ids(4), village_house_ids(4));
}

#[test]
fn small_villages_are_raised_to_their_minimum() {
    let actors = village_actor_roster(1);
    assert_eq!(actors.len(), 6);
    assert_eq!(actors[3].id, stable_actor_id(3, VillageActorKind::Sheep));
    assert_eq!(actors[4].id, stable_actor_id(91, VillageActorKind::Shepherd));
    assert_eq!(actors[4].behavior, VillageBehavior::Tending);
    assert_eq!(actors[5].id, stable_actor_id(137, VillageActorKind::Merchant));
    assert_eq!(actors[5].behavior, VillageBehavior::Trading);
    let houses = village_house_ids(0);
    assert_eq!(houses, vec![stable_house_id(0), stable_house_id(1), stable_house_id(2)]);
}

#[test]
fn herding_walk_runs_from_offer_to_completion() {
    let mut state = HerdingState::default();
    assert_eq!(interact_with_flock(&mut state, true), None);
    let tick = advance_herding(&mut state, true, false, false);
    assert!(tick.noticed_flock);
    assert_eq!(state.phase, HerdingPhase::Prompted);
    assert!(state.task_available);

    assert_eq!(interact_with_flock(&mut state, false), Some(HerdingInteraction::Started));
    assert!(state.flock_following_player);
    let tick = advance_herding(&mut state, true, true, false);
    assert!(tick.reached_grass);
    assert_eq!(state.phase, HerdingPhase::GrazingAtPatch);

    assert_eq!(interact_with_flock(&mut state, true), Some(HerdingInteraction::CalledHome));
    assert_eq!(state.phase, HerdingPhase::ReturningToPen);
    assert_eq!(interact_with_flock(&mut state, true), None);
    let tick = advance_herding(&mut state, false, false, true);
    assert!(tick.reached_pen);
    assert_eq!(interact_with_flock(&mut state, true), Some(HerdingInteraction::Completed));
    assert_eq!(state.phase, HerdingPhase::Completed);
    assert!(state.first_task_completed);
    assert_eq!(interact_with_flock(&mut state, true), None);
}

#[test]
fn house_doors_toggle_the_first_matching_house() {
    let mut houses = vec![
        HouseOccupancy { id: 4, occupied_by_player: false },
        HouseOccupancy { id: 9, occupied_by_player: false },
        HouseOccupancy { id: 9, occupied_by_player: false },
    ];
    assert_eq!(
        use_house_door(&mut houses, Some(VillageHouseSnapshot { id: 9, inside: false })),
        Some(HouseTransition::Entered)
    );
    assert!(houses[1].occupied_by_player);
    assert!(!houses[2].occupied_by_player);
    assert_eq!(
        use_house_door(&mut houses, Some(VillageHouseSnapshot { id: 9, inside: true })),
        Some(HouseTransition::Left)
    );
    assert!(!houses[1].occupied_by_player);
    assert_eq!(use_house_door(&mut houses, Some(VillageHouseSnapshot { id: 5, inside: false })), None);
    assert_eq!(use_house_door(&mut houses, None), None);
}

#[test]
fn house_prompt_outranks_herding_and_actors() {
    let herding = HerdingState {
        phase: HerdingPhase::Prompted,
        task_available: true,
        flock_following_player: false,
        player_has_seen_flock: true,
        grass_patch_reached: false,
        pen_returned: false,
        first_task_completed: false,
    };
    assert_eq!(
        village_interaction_prompt(
            Some(VillageActorKind::Merchant),
            Some(VillageHouseSnapshot { id: 1, inside: true }),
            herding,
            true,
            true
        ),
        Some("可离开屋舍")
    );
    assert_eq!(
        village_interaction_prompt(Some(VillageActorKind::Merchant), None, herding, false, false),
        Some("可开始放羊")
    );
    assert_eq!(
        village_interaction_prompt(None, None, HerdingState::default(), false, false),
        None
    );
}

#[test]
fn village_parts_are_classified_by_name() {
    assert_eq!(village_part_kind("HouseWindowWarmRight"), Some(VillageVisualPartKind::WarmWindow));
    assert_eq!(village_part_kind("MarketHangingScale"), Some(VillageVisualPartKind::WarmLantern));
    assert_eq!(village_part_kind("ShoreWetSand"), Some(VillageVisualPartKind::WetGround));
    assert_eq!(village_part_kind("WellWater"), Some(VillageVisualPartKind::ShoreWater));
    assert_eq!(village_part_kind("ShoreFoamLineB"), Some(VillageVisualPartKind::ShoreFoam));
    assert_eq!(village_part_kind("PathDustPatch"), Some(VillageVisualPartKind::PathStone));
    assert_eq!(village_part_kind("HouseSmokeWisp"), Some(VillageVisualPartKind::SmokeWisp));
    assert_eq!(village_part_kind("HouseRoof"), None);
}

#[test]
fn interaction_key_prefers_doors_then_flock_then_actors() {
    let mut houses = vec![HouseOccupancy { id: 2, occupied_by_player: false }];
    let mut herding = HerdingState {
        phase: HerdingPhase::Prompted,
        task_available: true,
        flock_following_player: false,
        player_has_seen_flock: true,
        grass_patch_reached: false,
        pen_returned: false,
        first_task_completed: false,
    };
    assert_eq!(
        press_village_interaction(
            &mut houses,
            Some(VillageHouseSnapshot { id: 2, inside: false }),
            &mut herding,
            true,
            true,
            Some(VillageActorKind::Sheep)
        ),
        VillageInteraction::Door(HouseTransition::Entered)
    );
    assert_eq!(herding.phase, HerdingPhase::Prompted);
    assert_eq!(
        press_village_interaction(&mut houses, None, &mut herding, false, true, Some(VillageActorKind::Sheep)),
        VillageInteraction::Attend(VillageActorKind::Sheep)
    );
    assert_eq!(
        press_village_interaction(&mut houses, None, &mut herding, true, false, None),
        VillageInteraction::Herding(HerdingInteraction::Started)
    );
    assert_eq!(
        press_village_interaction(&mut houses, None, &mut herding, true, false, None),
        VillageInteraction::Nothing
    );
}
