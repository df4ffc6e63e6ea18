use dao_game::regions::{
    build_region_graph, derive_seed, mark_milestone_reached, stable_gate_id, stable_region_id,
    GateObservation, GateProximity, RegionFrame, RegionId, RegionKind, RegionMilestoneKind,
    TransitionGateKind, TransitionGateState,
};

#[test]
fn region_graph_contains_core_regions_and_gates() {
    let graph = build_region_graph(511);

    assert_eq!(graph.regions.len(), 5);
    assert!(graph
        .regions
        .iter()
        .any(|region| region.kind == RegionKind::GrasslandForest));
    assert!(graph
        .regions
        .iter()
        .any(|region| region.kind == RegionKind::Desert));
    assert!(graph
        .gates
        .iter()
        .any(|gate| gate.kind == TransitionGateKind::MistRiverFord));
}

#[test]
fn region_and_gate_identifiers_are_stable() {
    let a = build_region_graph(99);
    let b = build_region_graph(99);
    let ids_a: Vec<u64> = a.regions.iter().map(|region| region.id.0).collect();
    let ids_b: Vec<u64> = b.regions.iter().map(|region| region.id.0).collect();
    assert_eq!(ids_a, ids_b);
    assert_eq!(a.regions[0].id.0, stable_region_id(99, RegionKind::VillageCoast));
    let gate = a.gates[0];
    assert_eq!(gate.id, stable_gate_id(gate.from, gate.to, gate.kind));
    assert_eq!(gate.state, TransitionGateState::Hidden);
    assert_ne!(derive_seed(1, 2), derive_seed(2, 1));
}

#[test]
fn derive_seed_mixes_like_splitmix() {
    let expected = {
        let mut value = 7u64
            .wrapping_mul(0x9E37_79B9_7F4A_7C15)
            .wrapping_add(13u64.wrapping_mul(0xBF58_476D_1CE4_E5B9));
        value ^= value >> 30;
        value = value.wrapping_mul(0xBF58_476D_1CE4_E5B9);
        value ^= value >> 27;
        value = value.wrapping_mul(0x94D0_49BB_1331_11EB);
        value ^ (value >> 31)
    };
    assert_eq!(derive_seed(7, 13), expected);
}

#[test]
fn gates_open_as_they_are_perceived() {
    let mut graph = build_region_graph(3);
    let count = graph.gates.len();
    let mut observations = Vec::new();
    for index in 0..count {
        observations.push(GateObservation {
            in_radius: index == 0,
            in_hint_range: true,
            condition_met: true,
        });
    }
    let changed = graph.observe_gates(&observations, false);
    assert!(changed.contains(&graph.gates[0].id));
    assert_eq!(graph.gates[0].state, TransitionGateState::Open);
    let newly = graph.record_discovered_gates(&changed);
    assert_eq!(newly, changed);
    assert!(graph.record_discovered_gates(&changed).is_empty());
}

#[test]
fn milestones_are_reported_once() {
    let graph = build_region_graph(8);
    let mut milestone = graph.milestones.town_edge;
    let region: RegionId = milestone.region;
    assert!(mark_milestone_reached(&mut milestone, region, true));
    assert!(milestone.discovered && milestone.recorded);
    assert!(!mark_milestone_reached(&mut milestone, region, true));
    assert_eq!(RegionMilestoneKind::TownEdge.label(), RegionMilestoneKind::TownEdge.label());
}

fn quiet_frame() -> RegionFrame {
    RegionFrame {
        crossing_done: false,
        within_outpost: false,
        within_town_edge: false,
        within_loss_crossroad: false,
        within_desert_road: false,
        perceiving: false,
        nearest: None,
        interact_pressed: false,
        within_interaction: false,
    }
}

fn unseen(count: usize) -> Vec<GateObservation> {
    vec![
        GateObservation {
            in_radius: false,
            in_hint_range: false,
            condition_met: false,
        };
        count
    ]
}

#[test]
fn discovered_gates_follow_the_order_of_the_changes() {
    let mut graph = build_region_graph(5);
    let mut observations = unseen(graph.gates.len());
    observations[0].in_radius = true;
    observations[3].in_radius = true;
    graph.observe_gates(&observations, false);
    let first = graph.gates[0].id;
    let harbor = graph.gates[3].id;
    let pass = graph.gates[1].id;
    let newly = graph.record_discovered_gates(&vec![harbor, pass, first, harbor]);
    assert_eq!(newly, vec![harbor, first]);
    assert_eq!(graph.discovered_gates, vec![harbor, first]);
}

#[test]
fn a_frame_observes_discovers_and_starts_a_crossing() {
    let mut graph = build_region_graph(11);
    let start = graph.current_region;
    let ford = graph.gates[0];
    let mut observations = unseen(graph.gates.len());
    observations[0] = GateObservation {
        in_radius: true,
        in_hint_range: true,
        condition_met: true,
    };
    let nearest = Some(GateProximity {
        gate_id: ford.id,
        open: true,
    });
    let frame = RegionFrame {
        nearest,
        interact_pressed: true,
        within_interaction: true,
        ..quiet_frame()
    };
    let events = graph.advance_frame(frame, &observations);
    assert_eq!(events.crossed, None);
    assert_eq!(events.changed_gates, vec![ford.id]);
    assert_eq!(events.discovered_gates, vec![ford.id]);
    assert!(events.crossing_started);
    assert_eq!(graph.gates[0].state, TransitionGateState::Open);
    assert_eq!(graph.nearest_gate, nearest);
    assert_eq!(graph.discovered_gates, vec![ford.id]);
    let crossing = graph.crossing.expect("crossing under way");
    assert_eq!(crossing.gate_id, ford.id);
    assert_eq!(crossing.to_region, ford.to);

    let waiting = graph.advance_frame(quiet_frame(), &Vec::new());
    assert_eq!(waiting.crossed, None);
    assert!(waiting.changed_gates.is_empty());
    assert_eq!(graph.current_region, start);
    assert_eq!(graph.crossing, Some(crossing));

    let done = graph.advance_frame(
        RegionFrame {
            crossing_done: true,
            ..quiet_frame()
        },
        &Vec::new(),
    );
    assert_eq!(done.crossed, Some(crossing));
    assert_eq!(graph.current_region, ford.to);
    assert_eq!(graph.crossing, None);
    assert_eq!(graph.gates[0].state, TransitionGateState::Crossed);
    assert!(graph.outpost.expect("outpost").discovered);
}

#[test]
fn a_frame_does_not_cross_a_gate_that_is_not_open() {
    let mut graph = build_region_graph(2);
    let pass = graph.gates[1];
    let mut observations = unseen(graph.gates.len());
    observations[1].in_radius = true;
    let frame = RegionFrame {
        nearest: Some(GateProximity {
            gate_id: pass.id,
            open: false,
        }),
        interact_pressed: true,
        within_interaction: true,
        ..quiet_frame()
    };
    let events = graph.advance_frame(frame, &observations);
    assert!(!events.crossing_started);
    assert_eq!(graph.gates[1].state, TransitionGateState::Hinted);
    assert_eq!(events.discovered_gates, vec![pass.id]);
    assert_eq!(graph.crossing, None);
}
