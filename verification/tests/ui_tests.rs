use dao_game::places::PlaceKind;
use dao_game::regions::{
    build_region_graph, GateCrossingState, GateProximity, RegionMilestoneKind,
    RegionOutpostState, TransitionGateKind,
};
use dao_game::signs::{OmenGuidancePhase, OmenKind};
use dao_game::ui::{
    biome_label, control_hint, formal_omen_hint, gate_status_hint, guidance_phase_label, herding_status_hint,
    octant_label, omen_label, place_label, return_path_hint, HudMode, SessionMode, UiModeKeys,
    UiModeState,
};
use dao_game::village::{HerdingPhase, HerdingState};
use dao_game::world::BiomeKind;

#[test]
fn labels_match_known_gameplay_terms() {
    assert_eq!(
        control_hint(SessionMode::Exploration),
        "WASD 移动  Shift 疾走  Space 跳跃  V 视角  Esc 暂停"
    );
    assert_eq!(biome_label(BiomeKind::Grove), "林地");
    assert_eq!(omen_label(Some(OmenKind::StillWater)), "止水");
    assert_eq!(omen_label(None), "未感知");
}

#[test]
fn return_path_hint_uses_recorded_places_without_task_language() {
    let titles = vec!["静水湾".to_string()];
    let ui_mode = UiModeState {
        return_paths_open: true,
        ..Default::default()
    };
    let text = return_path_hint(Some(&titles), &ui_mode);

    assert!(text.contains("静水湾"));
    assert!(!text.contains("任务"));
    assert!(!text.contains("前往"));
}

#[test]
fn formal_context_hints_are_readable_and_non_task_like() {
    let mut herding = HerdingState {
        phase: HerdingPhase::FollowingToGrass,
        task_available: true,
        flock_following_player: false,
        player_has_seen_flock: false,
        grass_patch_reached: false,
        pen_returned: false,
        first_task_completed: false,
    };
    let hint = herding_status_hint(&herding).expect("herding hint");
    assert!(hint.contains("羊群"));
    assert!(!hint.contains('?'));
    assert!(!hint.contains("任务"));

    herding.phase = HerdingPhase::Completed;
    herding.first_task_completed = true;
    assert!(herding_status_hint(&herding)
        .expect("completed hint")
        .contains("村外"));

    let mut graph = build_region_graph(42);
    let gate = graph.gates[0];
    assert_eq!(gate.kind, TransitionGateKind::MistRiverFord);
    graph.nearest_gate = Some(GateProximity {
        gate_id: gate.id,
        open: true,
    });
    let text = gate_status_hint(&graph);
    assert!(text.contains("雾河"));
    assert!(!text.contains('?'));
    assert!(!text.contains("任务"));
}

#[test]
fn gate_hint_prefers_crossing_then_milestones() {
    let mut graph = build_region_graph(5);
    assert_eq!(gate_status_hint(&graph), "");
    graph.nearest_gate = Some(GateProximity { gate_id: 1, open: false });
    assert_eq!(gate_status_hint(&graph), "雾里有旧水声");
    graph.milestones.town_edge.discovered = true;
    assert_eq!(gate_status_hint(&graph), RegionMilestoneKind::LossCrossroad.hint());
    graph.milestones.loss_crossroad.discovered = true;
    assert_eq!(gate_status_hint(&graph), RegionMilestoneKind::DesertRoad.hint());
    graph.crossing = Some(GateCrossingState {
        gate_id: 1,
        gate_kind: TransitionGateKind::MistRiverFord,
        to_region: graph.current_region,
    });
    assert_eq!(
        gate_status_hint(&graph),
        format!("正在穿过{}", TransitionGateKind::MistRiverFord.label())
    );
    graph.crossing = None;
    let region = graph.current_region;
    graph.milestones.town_edge.region = region;
    graph.milestones.town_edge.discovered = false;
    graph.outpost = Some(RegionOutpostState {
        region,
        discovered: true,
        recorded: true,
    });
    assert_eq!(gate_status_hint(&graph), RegionMilestoneKind::TownEdge.hint());
}

#[test]
fn return_path_line_lists_recent_places_once() {
    let closed = UiModeState::default();
    let open = UiModeState {
        return_paths_open: true,
        ..Default::default()
    };
    let notebook = UiModeState {
        notebook_open: true,
        ..Default::default()
    };
    let titles: Vec<String> = ["石阵", "石阵", "古树", "泉眼"]
        .iter()
        .map(|title| title.to_string())
        .collect();
    assert_eq!(return_path_hint(None, &closed), "归路  R");
    assert_eq!(return_path_hint(Some(&titles), &notebook), "");
    assert_eq!(return_path_hint(Some(&titles), &closed), "归路  R  石阵");
    assert_eq!(return_path_hint(Some(&titles), &open), "熟悉的归路：石阵 / 古树");
    assert_eq!(return_path_hint(Some(&Vec::new()), &open), "归路仍在记忆之外");
    assert_eq!(return_path_hint(Some(&Vec::new()), &closed), "归路  R");
}

#[test]
fn hud_keys_switch_panels_only_while_exploring() {
    let mut mode = UiModeState::default();
    let all = UiModeKeys {
        toggle_hud: true,
        toggle_compass: true,
        toggle_return_paths: true,
        toggle_notebook: true,
    };
    assert!(!mode.apply_keys(SessionMode::Presentation, all));
    assert_eq!(mode.hud_mode, HudMode::Development);
    assert!(mode.compass_open);
    assert!(mode.apply_keys(SessionMode::Exploration, all));
    assert_eq!(mode.hud_mode, HudMode::Formal);
    assert!(!mode.compass_open);
    assert!(mode.return_paths_open);
    assert!(mode.notebook_open);
    assert!(!mode.apply_keys(SessionMode::Exploration, all));
    assert!(!mode.notebook_open);
    assert_eq!(HudMode::Formal.label(), "正式 HUD");
}

#[test]
fn direction_and_guidance_names() {
    assert_eq!(octant_label(0), "北");
    assert_eq!(octant_label(6), "西");
    assert_eq!(octant_label(9), "东北");
    assert_eq!(place_label(Some(PlaceKind::QuietBay)), "静水湾");
    assert_eq!(place_label(None), "未名之地");
    assert_eq!(guidance_phase_label(OmenGuidancePhase::Responding), "世界正在回应");
    assert_eq!(control_hint(SessionMode::Presentation), "自动巡游展示场景  Esc 暂停");
}

#[test]
fn omen_line_names_omen_guidance_and_target() {
    assert_eq!(
        formal_omen_hint(
            Some(OmenKind::StillWater),
            OmenGuidancePhase::DrawingNear,
            Some(PlaceKind::QuietBay),
            Some(" 42m")
        ),
        "止水：征兆渐近，静水湾 42m"
    );
    assert_eq!(
        formal_omen_hint(None, OmenGuidancePhase::Dormant, None, None),
        "未感知：风声尚远"
    );
    assert_eq!(
        formal_omen_hint(
            Some(OmenKind::DawnLight),
            OmenGuidancePhase::Responding,
            Some(PlaceKind::StoneRing),
            Some(" 3m")
        ),
        "曙光：世界正在回应，石阵有了回声"
    );
}
