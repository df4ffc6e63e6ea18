use dao_game::places::PlaceKind;
use dao_game::signs::{
    advance_omen, choose_omen, guidance_phase, sign_guidance_changed, GuidanceSnapshot, OmenCues,
    OmenGuidancePhase, OmenKind, OmenThresholds, OmenTrigger,
};
use dao_game::world::BiomeKind;

fn quiet_cues() -> OmenCues {
    OmenCues {
        responding: false,
        settled: false,
        quiet: false,
        hushed: false,
        motionless: false,
        low_sun: false,
        horizon_light: false,
        high_ground: false,
        lush: false,
    }
}

fn hidden() -> OmenTrigger {
    OmenTrigger {
        omen_triggered: false,
        current_omen: None,
    }
}

#[test]
fn ridge_at_horizon_can_trigger_omen() {
    let cues = OmenCues {
        settled: true,
        quiet: true,
        hushed: true,
        low_sun: true,
        horizon_light: true,
        high_ground: true,
        ..quiet_cues()
    };
    let omen = choose_omen(
        BiomeKind::Ridge,
        OmenGuidancePhase::DrawingNear,
        Some(PlaceKind::RidgeGate),
        cues,
    );
    assert_eq!(omen, Some(OmenKind::SummitCall));

    let update = advance_omen(
        hidden(),
        omen,
        OmenThresholds {
            resonant: true,
            calm: true,
            lingering: true,
            steady: true,
            faded: false,
            has_target: true,
            rested: true,
        },
    );
    assert!(update.trigger.omen_triggered);
    assert_eq!(update.trigger.current_omen, Some(OmenKind::SummitCall));
    assert!(update.activated);
    assert!(update.calm_cost);
}

#[test]
fn nearby_target_sustains_directional_omen_feedback() {
    let omen = choose_omen(
        BiomeKind::Meadow,
        OmenGuidancePhase::DrawingNear,
        Some(PlaceKind::StoneRing),
        OmenCues {
            low_sun: true,
            ..quiet_cues()
        },
    );
    assert_eq!(omen, Some(OmenKind::DawnLight));
    let update = advance_omen(
        hidden(),
        omen,
        OmenThresholds {
            resonant: false,
            calm: true,
            lingering: true,
            steady: true,
            faded: false,
            has_target: true,
            rested: true,
        },
    );
    assert!(update.trigger.omen_triggered);
    assert!(update.activated);
    assert!(!update.calm_cost);
}

#[test]
fn response_intensity_switches_omen_to_place_semantics() {
    let omen = choose_omen(
        BiomeKind::Meadow,
        OmenGuidancePhase::Responding,
        Some(PlaceKind::SpringEye),
        OmenCues {
            responding: true,
            lush: true,
            quiet: true,
            motionless: true,
            ..quiet_cues()
        },
    );
    assert_eq!(omen, Some(OmenKind::StillWater));
    assert_eq!(guidance_phase(true, true, true), OmenGuidancePhase::Responding);
}

#[test]
fn land_shows_its_own_omens_away_from_targets() {
    let far = OmenGuidancePhase::Far;
    assert_eq!(
        choose_omen(BiomeKind::Water, far, None, OmenCues { horizon_light: true, ..quiet_cues() }),
        None
    );
    assert_eq!(
        choose_omen(BiomeKind::Water, far, None, OmenCues { motionless: true, ..quiet_cues() }),
        Some(OmenKind::StillWater)
    );
    assert_eq!(
        choose_omen(BiomeKind::Grove, far, None, OmenCues { lush: true, quiet: true, ..quiet_cues() }),
        Some(OmenKind::GroveWhisper)
    );
    assert_eq!(
        choose_omen(BiomeKind::Steppe, far, Some(PlaceKind::RidgeGate), OmenCues { horizon_light: true, ..quiet_cues() }),
        Some(OmenKind::DawnLight)
    );
    assert_eq!(
        choose_omen(BiomeKind::Steppe, OmenGuidancePhase::Arrived, Some(PlaceKind::AncientTree), quiet_cues()),
        None
    );
    assert_eq!(choose_omen(BiomeKind::Ridge, far, None, OmenCues { responding: true, ..quiet_cues() }), None);
}

#[test]
fn guidance_phase_follows_distance_bands() {
    assert_eq!(guidance_phase(false, true, true), OmenGuidancePhase::Arrived);
    assert_eq!(guidance_phase(false, false, true), OmenGuidancePhase::DrawingNear);
    assert_eq!(guidance_phase(false, false, false), OmenGuidancePhase::Far);
    assert_eq!(OmenGuidancePhase::default(), OmenGuidancePhase::Dormant);
}

#[test]
fn fading_omen_starts_the_cooldown() {
    let shown = OmenTrigger {
        omen_triggered: true,
        current_omen: Some(OmenKind::GroveWhisper),
    };
    let faded = OmenThresholds {
        resonant: false,
        calm: false,
        lingering: false,
        steady: false,
        faded: true,
        has_target: true,
        rested: false,
    };
    let update = advance_omen(shown, None, faded);
    assert_eq!(update.trigger, hidden());
    assert!(update.start_cooldown);
    assert!(!update.activated);

    let between = OmenThresholds { faded: false, ..faded };
    let kept = advance_omen(shown, None, between);
    assert_eq!(kept.trigger, shown);
    assert!(!kept.start_cooldown);
}

#[test]
fn guidance_changes_are_reported_once_they_matter() {
    let before = GuidanceSnapshot {
        target_place_id: Some(7),
        guidance_phase: OmenGuidancePhase::Far,
        current_omen: None,
    };
    assert!(!sign_guidance_changed(before, before, false, false));
    assert!(sign_guidance_changed(before, before, true, false));
    assert!(sign_guidance_changed(before, before, false, true));
    let nearer = GuidanceSnapshot {
        guidance_phase: OmenGuidancePhase::DrawingNear,
        ..before
    };
    assert!(sign_guidance_changed(before, nearer, false, false));
    let omen = GuidanceSnapshot {
        current_omen: Some(OmenKind::DawnLight),
        ..before
    };
    assert!(sign_guidance_changed(before, omen, false, false));
}
