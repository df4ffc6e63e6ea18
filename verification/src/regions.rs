//! The world region graph: regions, natural boundary gates between them,
//! gate discovery and crossing, and the milestones of the far bank.

use vstd::prelude::*;

verus! {

/// The seed-mixing function behind every stable region and gate identifier.
pub open spec fn derive_seed_spec(seed: u64, salt: u64) -> u64 {
    let v0 = vstd::wrapping::u64_specs::wrapping_add(
        vstd::wrapping::u64_specs::wrapping_mul(seed, 0x9E37_79B9_7F4A_7C15u64),
        vstd::wrapping::u64_specs::wrapping_mul(salt, 0xBF58_476D_1CE4_E5B9u64),
    );
    let v1 = v0 ^ (v0 >> 30u64);
    let v2 = vstd::wrapping::u64_specs::wrapping_mul(v1, 0xBF58_476D_1CE4_E5B9u64);
    let v3 = v2 ^ (v2 >> 27u64);
    let v4 = vstd::wrapping::u64_specs::wrapping_mul(v3, 0x94D0_49BB_1331_11EBu64);
    v4 ^ (v4 >> 31u64)
}

/// Mixes a salt into a seed.
pub fn derive_seed(seed: u64, salt: u64) -> (r: u64)
    ensures
        r == derive_seed_spec(seed, salt),
{
    let mut value = seed.wrapping_mul(0x9E37_79B9_7F4A_7C15u64).wrapping_add(
        salt.wrapping_mul(0xBF58_476D_1CE4_E5B9u64),
    );
    value = value ^ (value >> 30u64);
    value = value.wrapping_mul(0xBF58_476D_1CE4_E5B9u64);
    value = value ^ (value >> 27u64);
    value = value.wrapping_mul(0x94D0_49BB_1331_11EBu64);
    value ^ (value >> 31u64)
}


/// Identifier of a world region.
#[derive(Debug, Clone, Copy, PartialEq, Eq, Structural)]
pub struct RegionId(pub u64);

/// The five regions of the world.
#[derive(Debug, Clone, Copy, PartialEq, Eq, Structural)]
pub enum RegionKind {
    VillageCoast,
    GrasslandForest,
    MountainBoundary,
    Desert,
    FarSea,
}

impl RegionKind {
    /// Declaration position of the kind.
    pub open spec fn kind_index(self) -> u64 {
        match self {
            RegionKind::VillageCoast => 0,
            RegionKind::GrasslandForest => 1,
            RegionKind::MountainBoundary => 2,
            RegionKind::Desert => 3,
            RegionKind::FarSea => 4,
        }
    }

    /// Declaration position of the kind.
    pub fn index(self) -> (r: u64)
        ensures
            r == self.kind_index(),
    {
        match self {
            RegionKind::VillageCoast => 0,
            RegionKind::GrasslandForest => 1,
            RegionKind::MountainBoundary => 2,
            RegionKind::Desert => 3,
            RegionKind::FarSea => 4,
        }
    }

    /// Display name of the region.
    pub open spec fn label_text(self) -> Seq<char> {
        match self {
            RegionKind::VillageCoast => "村庄海岸"@,
            RegionKind::GrasslandForest => "草原林地"@,
            RegionKind::MountainBoundary => "山地边界"@,
            RegionKind::Desert => "沙漠"@,
            RegionKind::FarSea => "远海"@,
        }
    }

    /// Display name of the region.
    pub fn label(self) -> (r: &'static str)
        ensures
            r@ == self.label_text(),
    {
        match self {
            RegionKind::VillageCoast => "村庄海岸",
            RegionKind::GrasslandForest => "草原林地",
            RegionKind::MountainBoundary => "山地边界",
            RegionKind::Desert => "沙漠",
            RegionKind::FarSea => "远海",
        }
    }
}

/// The landmark a region is known for.
#[derive(Debug, Clone, Copy, PartialEq, Eq, Structural)]
pub enum RegionLandmarkKind {
    VillageHeadland,
    MistRiver,
    DesertPyramid,
    FarIslandLight,
}

impl RegionLandmarkKind {
    /// Display name of the landmark.
    pub open spec fn label_text(self) -> Seq<char> {
        match self {
            RegionLandmarkKind::VillageHeadland => "村庄海岬"@,
            RegionLandmarkKind::MistRiver => "迷雾河"@,
            RegionLandmarkKind::DesertPyramid => "沙漠金字塔"@,
            RegionLandmarkKind::FarIslandLight => "远海灯火"@,
        }
    }

    /// Display name of the landmark.
    pub fn label(self) -> (r: &'static str)
        ensures
            r@ == self.label_text(),
    {
        match self {
            RegionLandmarkKind::VillageHeadland => "村庄海岬",
            RegionLandmarkKind::MistRiver => "迷雾河",
            RegionLandmarkKind::DesertPyramid => "沙漠金字塔",
            RegionLandmarkKind::FarIslandLight => "远海灯火",
        }
    }
}

/// How a region ends.
#[derive(Debug, Clone, Copy, PartialEq, Eq, Structural)]
pub enum RegionBoundaryKind {
    Shore,
    MistRiver,
    MountainPass,
    SandstormVeil,
    SeaHorizon,
}

/// The terrain a region leans towards.
#[derive(Debug, Clone, Copy, PartialEq, Eq, Structural)]
pub enum RegionBiomeBias {
    CoastalMeadow,
    Ridge,
    DuneAndGobi,
    Ocean,
}

/// The weather a region leans towards.
#[derive(Debug, Clone, Copy, PartialEq, Eq, Structural)]
pub enum RegionWeatherBias {
    ClearSeaMist,
    StrongWind,
    Sandstorm,
    OceanFog,
}

/// The discrete character of a region; its danger and exploration weights
/// are tuned alongside the region's geometry.
#[derive(Debug, Clone, Copy, PartialEq, Eq, Structural)]
pub struct RegionProfile {
    pub biome_bias: RegionBiomeBias,
    pub weather_bias: RegionWeatherBias,
}

/// A region of the world graph; its center and radius live with the
/// terrain geometry.
#[derive(Debug, Clone, Copy, PartialEq, Eq, Structural)]
pub struct WorldRegion {
    pub id: RegionId,
    pub kind: RegionKind,
    pub seed: u64,
    pub landmark: Option<RegionLandmarkKind>,
    pub boundary: RegionBoundaryKind,
    pub profile: RegionProfile,
}

/// The kind of a natural boundary crossing.
#[derive(Debug, Clone, Copy, PartialEq, Eq, Structural)]
pub enum TransitionGateKind {
    MistRiverFord,
    MountainPass,
    Harbor,
}

impl TransitionGateKind {
    /// Declaration position of the kind.
    pub open spec fn kind_index(self) -> u64 {
        match self {
            TransitionGateKind::MistRiverFord => 0,
            TransitionGateKind::MountainPass => 1,
            TransitionGateKind::Harbor => 2,
        }
    }

    /// Declaration position of the kind.
    pub fn index(self) -> (r: u64)
        ensures
            r == self.kind_index(),
    {
        match self {
            TransitionGateKind::MistRiverFord => 0,
            TransitionGateKind::MountainPass => 1,
            TransitionGateKind::Harbor => 2,
        }
    }

    /// Display name of the crossing.
    pub open spec fn label_text(self) -> Seq<char> {
        match self {
            TransitionGateKind::MistRiverFord => "迷雾旧渡口"@,
            TransitionGateKind::MountainPass => "山口"@,
            TransitionGateKind::Harbor => "港口"@,
        }
    }

    /// Display name of the crossing.
    pub fn label(self) -> (r: &'static str)
        ensures
            r@ == self.label_text(),
    {
        match self {
            TransitionGateKind::MistRiverFord => "迷雾旧渡口",
            TransitionGateKind::MountainPass => "山口",
            TransitionGateKind::Harbor => "港口",
        }
    }
}

/// What has to be true of the journey before a gate opens.
#[derive(Debug, Clone, Copy, PartialEq, Eq, Structural)]
pub enum TransitionCondition {
    DreamAfterglowAndIntent,
    DiscoveredPass,
    SeaMethodKnown,
}

/// How much of a gate the player has perceived.
#[derive(Debug, Clone, Copy, PartialEq, Eq, Structural)]
pub enum TransitionGateState {
    Hidden,
    Hinted,
    Open,
    Crossed,
}

/// A natural boundary crossing between two regions; its position and
/// radius live with the terrain geometry.
#[derive(Debug, Clone, Copy)]
pub struct TransitionGate {
    pub id: u64,
    pub from: RegionId,
    pub to: RegionId,
    pub kind: TransitionGateKind,
    pub condition: TransitionCondition,
    pub state: TransitionGateState,
    pub hint: &'static str,
}

/// Which gate is nearest to the player within its hint range.
#[derive(Debug, Clone, Copy, PartialEq, Eq, Structural)]
pub struct GateProximity {
    pub gate_id: u64,
    pub open: bool,
}

/// A crossing in progress; its timing and path live with the player motion.
#[derive(Debug, Clone, Copy, PartialEq, Eq, Structural)]
pub struct GateCrossingState {
    pub gate_id: u64,
    pub gate_kind: TransitionGateKind,
    pub to_region: RegionId,
}

/// The first settlement beyond the mist river.
#[derive(Debug, Clone, Copy, PartialEq, Eq, Structural)]
pub struct RegionOutpostState {
    pub region: RegionId,
    pub discovered: bool,
    pub recorded: bool,
}

/// The three milestones of the road from the far bank to the desert.
#[derive(Debug, Clone, Copy, PartialEq, Eq, Structural)]
pub enum RegionMilestoneKind {
    TownEdge,
    LossCrossroad,
    DesertRoad,
}

impl RegionMilestoneKind {
    /// Display name of the milestone.
    pub open spec fn label_text(self) -> Seq<char> {
        match self {
            RegionMilestoneKind::TownEdge => "集镇边缘"@,
            RegionMilestoneKind::LossCrossroad => "失物路口"@,
            RegionMilestoneKind::DesertRoad => "沙漠前路"@,
        }
    }

    /// Display name of the milestone.
    pub fn label(self) -> (r: &'static str)
        ensures
            r@ == self.label_text(),
    {
        match self {
            RegionMilestoneKind::TownEdge => "集镇边缘",
            RegionMilestoneKind::LossCrossroad => "失物路口",
            RegionMilestoneKind::DesertRoad => "沙漠前路",
        }
    }

    /// Title of the notebook entry written when the milestone is reached.
    pub open spec fn notebook_title_text(self) -> Seq<char> {
        match self {
            RegionMilestoneKind::TownEdge => "听见集镇"@,
            RegionMilestoneKind::LossCrossroad => "失物路口"@,
            RegionMilestoneKind::DesertRoad => "沙漠前路"@,
        }
    }

    /// Title of the notebook entry written when the milestone is reached.
    pub fn notebook_title(self) -> (r: &'static str)
        ensures
            r@ == self.notebook_title_text(),
    {
        match self {
            RegionMilestoneKind::TownEdge => "听见集镇",
            RegionMilestoneKind::LossCrossroad => "失物路口",
            RegionMilestoneKind::DesertRoad => "沙漠前路",
        }
    }

    /// Body of the notebook entry written when the milestone is reached.
    pub open spec fn notebook_body_text(self) -> Seq<char> {
        match self {
            RegionMilestoneKind::TownEdge => "摊棚后的路开始宽起来，车辙、盐袋和陌生口音混在风里。城镇还没露面，买卖和旅费已经有了重量。"@,
            RegionMilestoneKind::LossCrossroad => "路边有空箱、断绳和急促脚印。这里不像告诫，更像世界提前留下的一道裂缝。"@,
            RegionMilestoneKind::DesertRoad => "山风变干，地上的草线断在砂砾前。金字塔仍不可及，但沙漠已经进入脚下这条路。"@,
        }
    }

    /// Body of the notebook entry written when the milestone is reached.
    pub fn notebook_body(self) -> (r: &'static str)
        ensures
            r@ == self.notebook_body_text(),
    {
        match self {
            RegionMilestoneKind::TownEdge => "摊棚后的路开始宽起来，车辙、盐袋和陌生口音混在风里。城镇还没露面，买卖和旅费已经有了重量。",
            RegionMilestoneKind::LossCrossroad => "路边有空箱、断绳和急促脚印。这里不像告诫，更像世界提前留下的一道裂缝。",
            RegionMilestoneKind::DesertRoad => "山风变干，地上的草线断在砂砾前。金字塔仍不可及，但沙漠已经进入脚下这条路。",
        }
    }

    /// The quiet hint the HUD shows while the milestone is still ahead.
    pub open spec fn hint_text(self) -> Seq<char> {
        match self {
            RegionMilestoneKind::TownEdge => "前方有摊声和车辙"@,
            RegionMilestoneKind::LossCrossroad => "路边空箱留下阴影"@,
            RegionMilestoneKind::DesertRoad => "干风带来沙的味道"@,
        }
    }

    /// The quiet hint the HUD shows while the milestone is still ahead.
    pub fn hint(self) -> (r: &'static str)
        ensures
            r@ == self.hint_text(),
    {
        match self {
            RegionMilestoneKind::TownEdge => "前方有摊声和车辙",
            RegionMilestoneKind::LossCrossroad => "路边空箱留下阴影",
            RegionMilestoneKind::DesertRoad => "干风带来沙的味道",
        }
    }
}

/// Progress towards one milestone; its center and arrival radius live with
/// the terrain geometry.
#[derive(Debug, Clone, Copy, PartialEq, Eq, Structural)]
pub struct RegionMilestoneState {
    pub kind: RegionMilestoneKind,
    pub region: RegionId,
    pub discovered: bool,
    pub recorded: bool,
}

/// The milestones of the journey after the mist river.
#[derive(Debug, Clone, Copy, PartialEq, Eq, Structural)]
pub struct RegionJourneyMilestones {
    pub town_edge: RegionMilestoneState,
    pub loss_crossroad: RegionMilestoneState,
    pub desert_road: RegionMilestoneState,
}

impl RegionJourneyMilestones {
    /// The first of the three milestones, in road order, that lies in the
    /// current region and is not yet discovered.
    pub open spec fn next_pending(self, current_region: RegionId) -> Option<RegionMilestoneKind> {
        if self.town_edge.region == current_region && !self.town_edge.discovered {
            Some(self.town_edge.kind)
        } else if self.loss_crossroad.region == current_region && !self.loss_crossroad.discovered {
            Some(self.loss_crossroad.kind)
        } else if self.desert_road.region == current_region && !self.desert_road.discovered {
            Some(self.desert_road.kind)
        } else {
            None
        }
    }

    /// The hint of the next pending milestone of the current region, shown
    /// only once the outpost has been discovered.
    pub fn next_hint(&self, current_region: RegionId, outpost_discovered: bool) -> (r: Option<
        &'static str,
    >)
        ensures
            !outpost_discovered ==> r is None,
            outpost_discovered ==> (match self.next_pending(current_region) {
                Some(kind) => r matches Some(h) && h@ == kind.hint_text(),
                None => r is None,
            }),
    {
        if !outpost_discovered {
            return None;
        }
        if self.town_edge.region == current_region && !self.town_edge.discovered {
            Some(self.town_edge.kind.hint())
        } else if self.loss_crossroad.region == current_region && !self.loss_crossroad.discovered {
            Some(self.loss_crossroad.kind.hint())
        } else if self.desert_road.region == current_region && !self.desert_road.discovered {
            Some(self.desert_road.kind.hint())
        } else {
            None
        }
    }
}

/// The identifier of the region of the given kind in a world of the given
/// seed.
pub open spec fn region_id_spec(seed: u64, kind: RegionKind) -> u64 {
    derive_seed_spec(seed, (kind.kind_index() + 101) as u64)
}

/// Stable identifier of a region of a world.
pub fn stable_region_id(seed: u64, kind: RegionKind) -> (r: u64)
    ensures
        r == region_id_spec(seed, kind),
{
    derive_seed(seed, kind.index() + 101)
}

/// The identifier of a gate of the given kind between two regions.
pub open spec fn gate_id_spec(from: RegionId, to: RegionId, kind: TransitionGateKind) -> u64 {
    derive_seed_spec(from.0 ^ to.0, (kind.kind_index() + 701) as u64)
}

/// Stable identifier of a gate between two regions.
pub fn stable_gate_id(from: RegionId, to: RegionId, kind: TransitionGateKind) -> (r: u64)
    ensures
        r == gate_id_spec(from, to, kind),
{
    derive_seed(from.0 ^ to.0, kind.index() + 701)
}


/// The graph of regions and gates, with the player's place in it.
#[derive(Debug)]
pub struct RegionGraphState {
    pub regions: Vec<WorldRegion>,
    pub gates: Vec<TransitionGate>,
    pub current_region: RegionId,
    pub nearest_gate: Option<GateProximity>,
    pub discovered_gates: Vec<u64>,
    pub crossing: Option<GateCrossingState>,
    pub outpost: Option<RegionOutpostState>,
    pub milestones: RegionJourneyMilestones,
}

/// `i` is the first position of a region with identifier `id`.
pub open spec fn is_first_region(regions: Seq<WorldRegion>, id: RegionId, i: int) -> bool {
    &&& 0 <= i < regions.len()
    &&& regions[i].id == id
    &&& forall|j: int| 0 <= j < i ==> regions[j].id != id
}

/// `i` is the first position of a gate with identifier `id`.
pub open spec fn is_first_gate(gates: Seq<TransitionGate>, id: u64, i: int) -> bool {
    &&& 0 <= i < gates.len()
    &&& gates[i].id == id
    &&& forall|j: int| 0 <= j < i ==> gates[j].id != id
}

/// Some gate carries the identifier.
pub open spec fn has_gate(gates: Seq<TransitionGate>, id: u64) -> bool {
    exists|i: int| 0 <= i < gates.len() && gates[i].id == id
}

/// Some region carries the identifier.
pub open spec fn has_region(regions: Seq<WorldRegion>, id: RegionId) -> bool {
    exists|i: int| 0 <= i < regions.len() && regions[i].id == id
}

/// The first gate with the identifier has been hinted or opened.
pub open spec fn gate_revealed(gates: Seq<TransitionGate>, id: u64) -> bool {
    exists|i: int|
        is_first_gate(gates, id, i) && (gates[i].state == TransitionGateState::Hinted
            || gates[i].state == TransitionGateState::Open)
}

/// The gates that a batch of changed gates newly discovers, in the order
/// of the batch: each identifier that is neither known already nor taken
/// earlier in the batch, and whose first gate is hinted or open.
pub open spec fn discovered_ids(known: Seq<u64>, changed: Seq<u64>, gates: Seq<TransitionGate>) -> Seq<
    u64,
>
    decreases changed.len(),
{
    if changed.len() == 0 {
        seq![]
    } else {
        let prev = discovered_ids(known, changed.drop_last(), gates);
        let id = changed.last();
        if (known + prev).contains(id) || !gate_revealed(gates, id) {
            prev
        } else {
            prev.push(id)
        }
    }
}

/// What the player currently perceives of one gate: whether they stand
/// within its radius, within its wider hint range, and whether that gate's
/// journey condition holds.
#[derive(Debug, Clone, Copy, PartialEq, Eq, Structural)]
pub struct GateObservation {
    pub in_radius: bool,
    pub in_hint_range: bool,
    pub condition_met: bool,
}

/// The state a gate of the current region takes for an observation: open
/// when the player is inside it and its condition holds, hinted when the
/// player is inside it or perceives it from its hint range, hidden otherwise.
pub open spec fn gate_state_for(observation: GateObservation, perceiving: bool) -> TransitionGateState {
    if observation.in_radius && observation.condition_met {
        TransitionGateState::Open
    } else if observation.in_radius || (perceiving && observation.in_hint_range) {
        TransitionGateState::Hinted
    } else {
        TransitionGateState::Hidden
    }
}

/// The state a gate of the current region takes for an observation.
pub fn next_gate_state(observation: GateObservation, perceiving: bool) -> (r: TransitionGateState)
    ensures
        r == gate_state_for(observation, perceiving),
        r == TransitionGateState::Open <==> observation.in_radius && observation.condition_met,
        r == TransitionGateState::Hidden <==> !observation.in_radius && !(perceiving && observation.in_hint_range),
        r != TransitionGateState::Crossed,
{
    if observation.in_radius && observation.condition_met {
        TransitionGateState::Open
    } else if observation.in_radius || (perceiving && observation.in_hint_range) {
        TransitionGateState::Hinted
    } else {
        TransitionGateState::Hidden
    }
}

/// How a gate of the current region shows itself: open exactly when the
/// player stands inside it and its journey condition holds; hidden exactly
/// when the player is outside it and does not perceive it from its hint
/// range; hinted otherwise; never marked crossed by looking. A perceiving
/// player within the hint range always sees it at least hinted, and
/// heightened perception never hides a gate that plain sight shows. Gates
/// of other regions are left as they are.
pub proof fn lemma_gate_state_by_observation(
    gate: TransitionGate,
    observation: GateObservation,
    current: RegionId,
    perceiving: bool,
)
    ensures
        gate_state_for(observation, perceiving) == TransitionGateState::Open <==> observation.in_radius
            && observation.condition_met,
        gate_state_for(observation, perceiving) == TransitionGateState::Hidden <==> !observation.in_radius
            && !(perceiving && observation.in_hint_range),
        gate_state_for(observation, perceiving) != TransitionGateState::Crossed,
        perceiving && observation.in_hint_range ==> gate_state_for(observation, perceiving)
            != TransitionGateState::Hidden,
        gate_state_for(observation, false) != TransitionGateState::Hidden ==> gate_state_for(observation, true)
            != TransitionGateState::Hidden,
        gate.from == current ==> observed_gate(gate, observation, current, perceiving) == (TransitionGate {
            state: gate_state_for(observation, perceiving),
            ..gate
        }),
        gate.from == current && perceiving && observation.in_hint_range ==> observed_gate(
            gate,
            observation,
            current,
            perceiving,
        ).state != TransitionGateState::Hidden,
        gate.from != current ==> observed_gate(gate, observation, current, perceiving) == gate,
{
}

/// A gate as it stands after an observation: gates that leave the current
/// region follow the observation, the others are untouched.
pub open spec fn observed_gate(
    gate: TransitionGate,
    observation: GateObservation,
    current: RegionId,
    perceiving: bool,
) -> TransitionGate {
    if gate.from == current {
        TransitionGate { state: gate_state_for(observation, perceiving), ..gate }
    } else {
        gate
    }
}

/// Identifiers, in gate order, of the gates of the current region whose
/// state an observation changes.
pub open spec fn changed_gate_ids(
    gates: Seq<TransitionGate>,
    observations: Seq<GateObservation>,
    current: RegionId,
    perceiving: bool,
) -> Seq<u64>
    decreases gates.len(),
{
    if gates.len() == 0 {
        seq![]
    } else {
        let prev = changed_gate_ids(gates.drop_last(), observations.drop_last(), current, perceiving);
        let gate = gates.last();
        if gate.from == current && gate_state_for(observations.last(), perceiving) != gate.state {
            prev.push(gate.id)
        } else {
            prev
        }
    }
}

/// Reaching a milestone: a milestone of the current region that is not yet
/// recorded is reached when it was already discovered or the player stands
/// within its arrival radius; it is then discovered and recorded.
pub open spec fn milestone_after(
    milestone: RegionMilestoneState,
    current_region: RegionId,
    within_arrival: bool,
) -> (RegionMilestoneState, bool) {
    if milestone.recorded || milestone.region != current_region {
        (milestone, false)
    } else if milestone.discovered || within_arrival {
        (RegionMilestoneState { discovered: true, recorded: true, ..milestone }, true)
    } else {
        (milestone, false)
    }
}

/// Marks a milestone reached when the player arrives; returns whether it
/// was reached now.
pub fn mark_milestone_reached(
    milestone: &mut RegionMilestoneState,
    current_region: RegionId,
    within_arrival: bool,
) -> (reached: bool)
    ensures
        (*final(milestone), reached) == milestone_after(*old(milestone), current_region, within_arrival),
{
    if milestone.recorded || milestone.region != current_region {
        return false;
    }
    if milestone.discovered || within_arrival {
        milestone.discovered = true;
        milestone.recorded = true;
        return true;
    }
    false
}

/// When a milestone is reached: exactly when it lies in the current
/// region, is not yet recorded, and the player stands within its arrival
/// radius or had already discovered it. Reaching it leaves it discovered
/// and recorded and changes nothing else of it; otherwise it is left as it
/// was.
pub proof fn lemma_milestone_reached_on_arrival(
    milestone: RegionMilestoneState,
    current_region: RegionId,
    within_arrival: bool,
)
    ensures
        ({
            let (after, reached) = milestone_after(milestone, current_region, within_arrival);
            &&& reached <==> milestone.region == current_region && !milestone.recorded && (within_arrival
                || milestone.discovered)
            &&& reached ==> after.discovered && after.recorded && after.kind == milestone.kind && after.region
                == milestone.region
            &&& !reached ==> after == milestone
        }),
{
}

/// A milestone is reported at most once: once reached, no later arrival
/// reports it again, and it stays discovered and recorded.
pub proof fn lemma_milestone_reported_once(
    milestone: RegionMilestoneState,
    first_region: RegionId,
    first_within: bool,
    second_region: RegionId,
    second_within: bool,
)
    ensures
        ({
            let (after_first, reached_first) = milestone_after(milestone, first_region, first_within);
            let (after_second, reached_second) = milestone_after(
                after_first,
                second_region,
                second_within,
            );
            &&& reached_first ==> !reached_second
            &&& reached_first ==> after_second.recorded && after_second.discovered
            &&& milestone.recorded ==> !reached_first
        }),
{
}


impl RegionGraphState {
    /// The first region with the identifier, if any.
    pub fn region(&self, id: RegionId) -> (r: Option<&WorldRegion>)
        ensures
            r is None <==> !has_region(self.regions@, id),
            r matches Some(x) ==> exists|i: int| is_first_region(self.regions@, id, i) && self.regions@[i] == *x,
    {
        let mut i: usize = 0;
        while i < self.regions.len()
            invariant
                i <= self.regions@.len(),
                forall|j: int| 0 <= j < i ==> self.regions@[j].id != id,
            decreases self.regions@.len() - i,
        {
            if self.regions[i].id == id {
                assert(is_first_region(self.regions@, id, i as int));
                return Some(&self.regions[i]);
            }
            i = i + 1;
        }
        None
    }

    /// Position of the first gate with the identifier, if any.
    pub fn gate_index(&self, id: u64) -> (r: Option<usize>)
        ensures
            r is None <==> !has_gate(self.gates@, id),
            r matches Some(i) ==> is_first_gate(self.gates@, id, i as int),
    {
        let mut i: usize = 0;
        while i < self.gates.len()
            invariant
                i <= self.gates@.len(),
                forall|j: int| 0 <= j < i ==> self.gates@[j].id != id,
            decreases self.gates@.len() - i,
        {
            if self.gates[i].id == id {
                return Some(i);
            }
            i = i + 1;
        }
        None
    }

    /// Which gate is recorded as nearest to the player, if it still exists.
    pub fn nearest_gate(&self) -> (r: Option<&TransitionGate>)
        ensures
            match self.nearest_gate {
                None => r is None,
                Some(p) => {
                    &&& r is None <==> !has_gate(self.gates@, p.gate_id)
                    &&& r matches Some(g) ==> exists|i: int|
                        is_first_gate(self.gates@, p.gate_id, i) && self.gates@[i] == *g
                },
            },
    {
        match self.nearest_gate {
            None => None,
            Some(proximity) => match self.gate_index(proximity.gate_id) {
                None => None,
                Some(i) => Some(&self.gates[i]),
            },
        }
    }

    /// Applies what the player perceives of each gate (one observation per
    /// gate, in gate order): gates leaving the current region take their
    /// observed state, the others keep theirs. Returns the identifiers of
    /// the gates whose state changed, in gate order.
    pub fn observe_gates(&mut self, observations: &Vec<GateObservation>, perceiving: bool) -> (changed:
        Vec<u64>)
        requires
            observations@.len() == old(self).gates@.len(),
        ensures
            final(self).gates@.len() == old(self).gates@.len(),
            forall|i: int|
                0 <= i < old(self).gates@.len() ==> #[trigger] final(self).gates@[i] == observed_gate(
                    old(self).gates@[i],
                    observations@[i],
                    old(self).current_region,
                    perceiving,
                ),
            changed@ == changed_gate_ids(
                old(self).gates@,
                observations@,
                old(self).current_region,
                perceiving,
            ),
            final(self).regions@ == old(self).regions@,
            final(self).current_region == old(self).current_region,
            final(self).nearest_gate == old(self).nearest_gate,
            final(self).discovered_gates@ == old(self).discovered_gates@,
            final(self).crossing == old(self).crossing,
            final(self).outpost == old(self).outpost,
            final(self).milestones == old(self).milestones,
    {
        let mut changed: Vec<u64> = Vec::new();
        let current = self.current_region;
        let mut i: usize = 0;
        while i < self.gates.len()
            invariant
                i <= self.gates@.len(),
                self.gates@.len() == old(self).gates@.len(),
                observations@.len() == old(self).gates@.len(),
                current == old(self).current_region,
                self.current_region == old(self).current_region,
                self.regions@ == old(self).regions@,
                self.nearest_gate == old(self).nearest_gate,
                self.discovered_gates@ == old(self).discovered_gates@,
                self.crossing == old(self).crossing,
                self.outpost == old(self).outpost,
                self.milestones == old(self).milestones,
                forall|j: int|
                    0 <= j < i ==> #[trigger] self.gates@[j] == observed_gate(
                        old(self).gates@[j],
                        observations@[j],
                        current,
                        perceiving,
                    ),
                forall|j: int| i <= j < self.gates@.len() ==> #[trigger] self.gates@[j] == old(self).gates@[j],
                changed@ == changed_gate_ids(
                    old(self).gates@.take(i as int),
                    observations@.take(i as int),
                    current,
                    perceiving,
                ),
            decreases self.gates@.len() - i,
        {
            assert(old(self).gates@.take(i as int + 1).drop_last() =~= old(self).gates@.take(i as int));
            assert(observations@.take(i as int + 1).drop_last() =~= observations@.take(i as int));
            let gate = self.gates[i];
            if gate.from == current {
                let next = next_gate_state(observations[i], perceiving);
                if next != gate.state {
                    changed.push(gate.id);
                }
                let mut updated = gate;
                updated.state = next;
                self.gates.set(i, updated);
            }
            i = i + 1;
        }
        assert(old(self).gates@.take(old(self).gates@.len() as int) =~= old(self).gates@);
        assert(observations@.take(observations@.len() as int) =~= observations@);
        changed
    }

    /// Records, in order, the changed gates that are now hinted or open and
    /// were not yet discovered; returns the gates newly discovered.
    pub fn record_discovered_gates(&mut self, changed: &Vec<u64>) -> (newly: Vec<u64>)
        ensures
            newly@ == discovered_ids(old(self).discovered_gates@, changed@, old(self).gates@),
            final(self).discovered_gates@ == old(self).discovered_gates@ + newly@,
            newly@.no_duplicates(),
            forall|k: int|
                0 <= k < newly@.len() ==> {
                    &&& changed@.contains(#[trigger] newly@[k])
                    &&& !old(self).discovered_gates@.contains(newly@[k])
                    &&& gate_revealed(old(self).gates@, newly@[k])
                },
            forall|id: u64|
                changed@.contains(id) && gate_revealed(old(self).gates@, id)
                    ==> #[trigger] final(self).discovered_gates@.contains(id),
            old(self).discovered_gates@.no_duplicates() ==> final(self).discovered_gates@.no_duplicates(),
            final(self).regions@ == old(self).regions@,
            final(self).gates@ == old(self).gates@,
            final(self).current_region == old(self).current_region,
            final(self).nearest_gate == old(self).nearest_gate,
            final(self).crossing == old(self).crossing,
            final(self).outpost == old(self).outpost,
            final(self).milestones == old(self).milestones,
    {
        let mut newly: Vec<u64> = Vec::new();
        let mut i: usize = 0;
        while i < changed.len()
            invariant
                i <= changed@.len(),
                newly@ == discovered_ids(old(self).discovered_gates@, changed@.take(i as int), old(self).gates@),
                self.discovered_gates@ == old(self).discovered_gates@ + newly@,
                newly@.no_duplicates(),
                forall|k: int|
                    0 <= k < newly@.len() ==> {
                        &&& changed@.contains(#[trigger] newly@[k])
                        &&& !old(self).discovered_gates@.contains(newly@[k])
                        &&& gate_revealed(old(self).gates@, newly@[k])
                    },
                forall|j: int|
                    0 <= j < i && gate_revealed(old(self).gates@, changed@[j])
                        ==> self.discovered_gates@.contains(#[trigger] changed@[j]),
                old(self).discovered_gates@.no_duplicates() ==> self.discovered_gates@.no_duplicates(),
                self.regions@ == old(self).regions@,
                self.gates@ == old(self).gates@,
                self.current_region == old(self).current_region,
                self.nearest_gate == old(self).nearest_gate,
                self.crossing == old(self).crossing,
                self.outpost == old(self).outpost,
                self.milestones == old(self).milestones,
            decreases changed@.len() - i,
        {
            let id = changed[i];
            assert(changed@.take(i as int + 1).drop_last() =~= changed@.take(i as int));
            assert(changed@.take(i as int + 1).last() == id);
            let mut known = false;
            let mut k: usize = 0;
            while k < self.discovered_gates.len()
                invariant
                    k <= self.discovered_gates@.len(),
                    known <==> exists|m: int| 0 <= m < k && self.discovered_gates@[m] == id,
                decreases self.discovered_gates@.len() - k,
            {
                if self.discovered_gates[k] == id {
                    known = true;
                }
                k = k + 1;
            }
            assert(known <==> self.discovered_gates@.contains(id));
            if !known {
                match self.gate_index(id) {
                    None => {
                        assert(!gate_revealed(old(self).gates@, id));
                    },
                    Some(g) => {
                        let state = self.gates[g].state;
                        if state == TransitionGateState::Hinted || state == TransitionGateState::Open {
                            let ghost before = self.discovered_gates@;
                            let ghost newly_before = newly@;
                            self.discovered_gates.push(id);
                            newly.push(id);
                            assert(self.discovered_gates@ =~= old(self).discovered_gates@ + newly@);
                            assert(changed@.contains(id)) by {
                                assert(changed@[i as int] == id);
                            }
                            assert(gate_revealed(old(self).gates@, id));
                            assert(!newly_before.contains(id)) by {
                                if newly_before.contains(id) {
                                    let m = choose|m: int| 0 <= m < newly_before.len() && newly_before[m] == id;
                                    assert(before[old(self).discovered_gates@.len() + m] == id);
                                }
                            }
                            assert(!old(self).discovered_gates@.contains(id)) by {
                                if old(self).discovered_gates@.contains(id) {
                                    let m = choose|m: int| 0 <= m < old(self).discovered_gates@.len() && old(self).discovered_gates@[m] == id;
                                    assert(before[m] == id);
                                }
                            }
                            assert(self.discovered_gates@[self.discovered_gates@.len() - 1] == id);
                            assert forall|j: int|
                                0 <= j < i + 1 && gate_revealed(old(self).gates@, changed@[j])
                                    implies self.discovered_gates@.contains(#[trigger] changed@[j]) by {
                                if j < i {
                                    let m = choose|m: int| 0 <= m < before.len() && before[m] == changed@[j];
                                    assert(self.discovered_gates@[m] == changed@[j]);
                                }
                            }
                        } else {
                            assert(!gate_revealed(old(self).gates@, id)) by {
                                if gate_revealed(old(self).gates@, id) {
                                    let w = choose|w: int| is_first_gate(old(self).gates@, id, w) && (old(self).gates@[w].state == TransitionGateState::Hinted
                                        || old(self).gates@[w].state == TransitionGateState::Open);
                                    assert(w == g);
                                }
                            }
                            assert forall|j: int|
                                0 <= j < i + 1 && gate_revealed(old(self).gates@, changed@[j])
                                    implies self.discovered_gates@.contains(#[trigger] changed@[j]) by {
                                if j == i {
                                    let w = choose|w: int| is_first_gate(old(self).gates@, id, w) && (old(self).gates@[w].state == TransitionGateState::Hinted
                                        || old(self).gates@[w].state == TransitionGateState::Open);
                                    assert(w == g);
                                }
                            }
                        }
                    },
                }
            }
            i = i + 1;
        }
        assert forall|id: u64|
            changed@.contains(id) && gate_revealed(old(self).gates@, id)
                implies #[trigger] self.discovered_gates@.contains(id) by {
            let j = choose|j: int| 0 <= j < changed@.len() && changed@[j] == id;
        }
        assert(changed@.take(changed@.len() as int) =~= changed@);
        newly
    }

    /// Starts crossing the nearest gate when the player asks to cross, stands
    /// within interaction distance, the nearest gate is open, that gate still
    /// exists and its destination region is known. A crossing already under
    /// way is never restarted. Returns whether a crossing started.
    pub fn try_begin_crossing(&mut self, interact_pressed: bool, within_interaction: bool) -> (started:
        bool)
        ensures
            started <==> {
                &&& old(self).crossing is None
                &&& interact_pressed
                &&& within_interaction
                &&& old(self).nearest_gate matches Some(p)
                &&& p.open
                &&& exists|g: int|
                    is_first_gate(old(self).gates@, p.gate_id, g) && has_region(
                        old(self).regions@,
                        old(self).gates@[g].to,
                    )
            },
            started ==> exists|g: int|
                is_first_gate(old(self).gates@, old(self).nearest_gate->Some_0.gate_id, g)
                    && final(self).crossing == Some(
                    GateCrossingState {
                        gate_id: old(self).gates@[g].id,
                        gate_kind: old(self).gates@[g].kind,
                        to_region: old(self).gates@[g].to,
                    },
                ),
            !started ==> final(self).crossing == old(self).crossing,
            final(self).regions@ == old(self).regions@,
            final(self).gates@ == old(self).gates@,
            final(self).current_region == old(self).current_region,
            final(self).nearest_gate == old(self).nearest_gate,
            final(self).discovered_gates@ == old(self).discovered_gates@,
            final(self).outpost == old(self).outpost,
            final(self).milestones == old(self).milestones,
    {
        if self.crossing.is_some() || !interact_pressed || !within_interaction {
            return false;
        }
        let proximity = match self.nearest_gate {
            None => {
                return false;
            },
            Some(p) => p,
        };
        if !proximity.open {
            return false;
        }
        let g = match self.gate_index(proximity.gate_id) {
            None => {
                return false;
            },
            Some(g) => g,
        };
        let gate = self.gates[g];
        match self.region(gate.to) {
            None => {
                assert forall|w: int|
                    is_first_gate(self.gates@, proximity.gate_id, w) implies !has_region(
                        self.regions@,
                        self.gates@[w].to,
                    ) by {
                    assert(w == g as int);
                }
                false
            },
            Some(_) => {
                self.crossing = Some(
                    GateCrossingState { gate_id: gate.id, gate_kind: gate.kind, to_region: gate.to },
                );
                true
            },
        }
    }

    /// Completes the crossing under way: the player is now in that gate's
    /// destination region, the outpost of that region (if it is the one
    /// beyond this gate) becomes discovered, that gate is marked crossed and
    /// no crossing remains. Returns the completed crossing.
    pub fn finish_crossing(&mut self) -> (done: Option<GateCrossingState>)
        ensures
            done == old(self).crossing,
            old(self).crossing is None ==> {
                &&& final(self).gates@ == old(self).gates@
                &&& final(self).current_region == old(self).current_region
                &&& final(self).outpost == old(self).outpost
            },
            old(self).crossing matches Some(c) ==> {
                &&& final(self).current_region == c.to_region
                &&& final(self).crossing is None
                &&& final(self).outpost == (match old(self).outpost {
                    Some(o) => if o.region == c.to_region {
                        Some(RegionOutpostState { discovered: true, ..o })
                    } else {
                        Some(o)
                    },
                    None => None,
                })
                &&& final(self).gates@.len() == old(self).gates@.len()
                &&& forall|i: int|
                    0 <= i < old(self).gates@.len() ==> #[trigger] final(self).gates@[i] == (if is_first_gate(
                        old(self).gates@,
                        c.gate_id,
                        i,
                    ) {
                        TransitionGate { state: TransitionGateState::Crossed, ..old(self).gates@[i] }
                    } else {
                        old(self).gates@[i]
                    })
            },
            final(self).regions@ == old(self).regions@,
            final(self).nearest_gate == old(self).nearest_gate,
            final(self).discovered_gates@ == old(self).discovered_gates@,
            final(self).milestones == old(self).milestones,
    {
        let crossing = match self.crossing {
            None => {
                return None;
            },
            Some(c) => c,
        };
        self.current_region = crossing.to_region;
        match self.outpost {
            Some(o) => {
                if o.region == crossing.to_region {
                    self.outpost = Some(RegionOutpostState { discovered: true, ..o });
                }
            },
            None => {},
        }
        match self.gate_index(crossing.gate_id) {
            Some(g) => {
                let mut gate = self.gates[g];
                gate.state = TransitionGateState::Crossed;
                self.gates.set(g, gate);
                assert forall|i: int| 0 <= i < old(self).gates@.len() && is_first_gate(
                    old(self).gates@, crossing.gate_id, i) implies i == g as int by {
                    if i < g as int {
                        assert(old(self).gates@[i].id != crossing.gate_id);
                    } else if i > g as int {
                        assert(old(self).gates@[g as int].id == crossing.gate_id);
                    }
                }
            },
            None => {},
        }
        self.crossing = None;
        Some(crossing)
    }

    /// Records the player's arrival at the outpost: once the outpost has been
    /// discovered, the player is in its region and within its arrival
    /// radius, it is recorded once. Returns whether it was recorded now.
    pub fn record_outpost_arrival(&mut self, within_arrival: bool) -> (recorded: bool)
        ensures
            recorded <==> (old(self).outpost matches Some(o) && o.discovered && !o.recorded
                && o.region == old(self).current_region && within_arrival),
            recorded ==> final(self).outpost == Some(
                RegionOutpostState { recorded: true, ..old(self).outpost->Some_0 },
            ),
            !recorded ==> final(self).outpost == old(self).outpost,
            final(self).regions@ == old(self).regions@,
            final(self).gates@ == old(self).gates@,
            final(self).current_region == old(self).current_region,
            final(self).nearest_gate == old(self).nearest_gate,
            final(self).discovered_gates@ == old(self).discovered_gates@,
            final(self).crossing == old(self).crossing,
            final(self).milestones == old(self).milestones,
    {
        match self.outpost {
            Some(o) => {
                if o.discovered && !o.recorded && o.region == self.current_region && within_arrival {
                    self.outpost = Some(RegionOutpostState { recorded: true, ..o });
                    true
                } else {
                    false
                }
            },
            None => false,
        }
    }

    /// Checks the three milestones in road order against the player's
    /// arrival at each; returns the kinds reached now, in that order.
    pub fn update_region_milestones(
        &mut self,
        within_town_edge: bool,
        within_loss_crossroad: bool,
        within_desert_road: bool,
    ) -> (reached: Vec<RegionMilestoneKind>)
        ensures
            ({
                let current = old(self).current_region;
                let (town, town_reached) = milestone_after(
                    old(self).milestones.town_edge,
                    current,
                    within_town_edge,
                );
                let (loss, loss_reached) = milestone_after(
                    old(self).milestones.loss_crossroad,
                    current,
                    within_loss_crossroad,
                );
                let (desert, desert_reached) = milestone_after(
                    old(self).milestones.desert_road,
                    current,
                    within_desert_road,
                );
                &&& final(self).milestones == RegionJourneyMilestones {
                    town_edge: town,
                    loss_crossroad: loss,
                    desert_road: desert,
                }
                &&& reached@ == (if town_reached { seq![RegionMilestoneKind::TownEdge] } else { seq![] })
                    + (if loss_reached { seq![RegionMilestoneKind::LossCrossroad] } else { seq![] })
                    + (if desert_reached { seq![RegionMilestoneKind::DesertRoad] } else { seq![] })
            }),
            final(self).regions@ == old(self).regions@,
            final(self).gates@ == old(self).gates@,
            final(self).current_region == old(self).current_region,
            final(self).nearest_gate == old(self).nearest_gate,
            final(self).discovered_gates@ == old(self).discovered_gates@,
            final(self).crossing == old(self).crossing,
            final(self).outpost == old(self).outpost,
    {
        let current = self.current_region;
        let mut reached: Vec<RegionMilestoneKind> = Vec::new();
        if mark_milestone_reached(&mut self.milestones.town_edge, current, within_town_edge) {
            reached.push(RegionMilestoneKind::TownEdge);
        }
        if mark_milestone_reached(&mut self.milestones.loss_crossroad, current, within_loss_crossroad) {
            reached.push(RegionMilestoneKind::LossCrossroad);
        }
        if mark_milestone_reached(&mut self.milestones.desert_road, current, within_desert_road) {
            reached.push(RegionMilestoneKind::DesertRoad);
        }
        assert(reached@ =~= (if milestone_after(old(self).milestones.town_edge, current, within_town_edge).1 { seq![RegionMilestoneKind::TownEdge] } else { seq![] })
                    + (if milestone_after(old(self).milestones.loss_crossroad, current, within_loss_crossroad).1 { seq![RegionMilestoneKind::LossCrossroad] } else { seq![] })
                    + (if milestone_after(old(self).milestones.desert_road, current, within_desert_road).1 { seq![RegionMilestoneKind::DesertRoad] } else { seq![] }));
        reached
    }
}


/// What the player's surroundings tell the region graph in one frame: how
/// far a crossing under way has come, which places the player stands
/// within, whether perception is heightened, which gate is nearest within its
/// hint range (open when its journey condition holds), and whether the
/// player asked to cross.
#[derive(Debug, Clone, Copy, PartialEq, Eq, Structural)]
pub struct RegionFrame {
    pub crossing_done: bool,
    pub within_outpost: bool,
    pub within_town_edge: bool,
    pub within_loss_crossroad: bool,
    pub within_desert_road: bool,
    pub perceiving: bool,
    pub nearest: Option<GateProximity>,
    pub interact_pressed: bool,
    pub within_interaction: bool,
}

/// What one frame of the region graph did, for the notebook and the log.
#[derive(Debug, Clone)]
pub struct RegionFrameEvents {
    pub crossed: Option<GateCrossingState>,
    pub outpost_recorded: bool,
    pub milestones: Vec<RegionMilestoneKind>,
    pub changed_gates: Vec<u64>,
    pub discovered_gates: Vec<u64>,
    pub crossing_started: bool,
}

/// The outpost after the player's arrival check, and whether it was
/// recorded now.
pub open spec fn outpost_after(outpost: Option<RegionOutpostState>, current: RegionId, within: bool) -> (
    Option<RegionOutpostState>,
    bool,
) {
    match outpost {
        Some(o) => if o.discovered && !o.recorded && o.region == current && within {
            (Some(RegionOutpostState { recorded: true, ..o }), true)
        } else {
            (outpost, false)
        },
        None => (None, false),
    }
}

/// The three milestones after checking each, in road order.
pub open spec fn milestones_after(
    milestones: RegionJourneyMilestones,
    current: RegionId,
    town_edge: bool,
    loss_crossroad: bool,
    desert_road: bool,
) -> RegionJourneyMilestones {
    RegionJourneyMilestones {
        town_edge: milestone_after(milestones.town_edge, current, town_edge).0,
        loss_crossroad: milestone_after(milestones.loss_crossroad, current, loss_crossroad).0,
        desert_road: milestone_after(milestones.desert_road, current, desert_road).0,
    }
}

/// The kinds of the milestones reached by that check, in road order.
pub open spec fn milestones_reached(
    milestones: RegionJourneyMilestones,
    current: RegionId,
    town_edge: bool,
    loss_crossroad: bool,
    desert_road: bool,
) -> Seq<RegionMilestoneKind> {
    (if milestone_after(milestones.town_edge, current, town_edge).1 {
        seq![RegionMilestoneKind::TownEdge]
    } else {
        seq![]
    }) + (if milestone_after(milestones.loss_crossroad, current, loss_crossroad).1 {
        seq![RegionMilestoneKind::LossCrossroad]
    } else {
        seq![]
    }) + (if milestone_after(milestones.desert_road, current, desert_road).1 {
        seq![RegionMilestoneKind::DesertRoad]
    } else {
        seq![]
    })
}

/// Whether a crossing starts: the player asks to cross within interaction
/// distance of the nearest gate, which is open, still exists and leads to a
/// known region.
pub open spec fn crossing_starts(
    gates: Seq<TransitionGate>,
    regions: Seq<WorldRegion>,
    nearest: Option<GateProximity>,
    interact_pressed: bool,
    within_interaction: bool,
) -> bool {
    &&& interact_pressed
    &&& within_interaction
    &&& nearest matches Some(p)
    &&& p.open
    &&& exists|g: int| is_first_gate(gates, p.gate_id, g) && has_region(regions, gates[g].to)
}

/// `after` is `before` with the crossing `c` completed: the player stands in
/// its destination region, the outpost there is discovered, the crossed
/// gate is marked crossed and no crossing remains.
pub open spec fn crossing_completed(before: RegionGraphState, after: RegionGraphState, c: GateCrossingState) -> bool {
    &&& after.current_region == c.to_region
    &&& after.crossing is None
    &&& after.outpost == (match before.outpost {
        Some(o) => if o.region == c.to_region {
            Some(RegionOutpostState { discovered: true, ..o })
        } else {
            Some(o)
        },
        None => None,
    })
    &&& after.gates@.len() == before.gates@.len()
    &&& forall|i: int|
        0 <= i < before.gates@.len() ==> #[trigger] after.gates@[i] == (if is_first_gate(
            before.gates@,
            c.gate_id,
            i,
        ) {
            TransitionGate { state: TransitionGateState::Crossed, ..before.gates@[i] }
        } else {
            before.gates@[i]
        })
    &&& after.regions@ == before.regions@
    &&& after.nearest_gate == before.nearest_gate
    &&& after.discovered_gates@ == before.discovered_gates@
    &&& after.milestones == before.milestones
}

impl RegionGraphState {
    /// One frame of the region graph. While a crossing is under way nothing
    /// else happens: it completes once the player's motion along it is done.
    /// Otherwise, in this order, the outpost arrival is checked, the
    /// milestones are checked, the gates of the current region take their
    /// observed states (one observation per gate, in gate order), the
    /// changed gates that are now hinted or open are discovered, the nearest
    /// gate is recorded, and a crossing of it may start.
    pub fn advance_frame(&mut self, frame: RegionFrame, observations: &Vec<GateObservation>) -> (events:
        RegionFrameEvents)
        requires
            old(self).crossing is None ==> observations@.len() == old(self).gates@.len(),
        ensures
            old(self).crossing matches Some(c) ==> {
                &&& events.crossed == (if frame.crossing_done { Some(c) } else { None })
                &&& frame.crossing_done ==> crossing_completed(*old(self), *final(self), c)
                &&& !frame.crossing_done ==> {
                    &&& final(self).regions@ == old(self).regions@
                    &&& final(self).gates@ == old(self).gates@
                    &&& final(self).current_region == old(self).current_region
                    &&& final(self).nearest_gate == old(self).nearest_gate
                    &&& final(self).discovered_gates@ == old(self).discovered_gates@
                    &&& final(self).crossing == old(self).crossing
                    &&& final(self).outpost == old(self).outpost
                    &&& final(self).milestones == old(self).milestones
                }
                &&& !events.outpost_recorded
                &&& events.milestones@.len() == 0
                &&& events.changed_gates@.len() == 0
                &&& events.discovered_gates@.len() == 0
                &&& !events.crossing_started
            },
            old(self).crossing is None ==> {
                let current = old(self).current_region;
                &&& events.crossed is None
                &&& final(self).current_region == current
                &&& final(self).regions@ == old(self).regions@
                &&& final(self).outpost == outpost_after(old(self).outpost, current, frame.within_outpost).0
                &&& events.outpost_recorded == outpost_after(old(self).outpost, current, frame.within_outpost).1
                &&& final(self).milestones == milestones_after(
                    old(self).milestones,
                    current,
                    frame.within_town_edge,
                    frame.within_loss_crossroad,
                    frame.within_desert_road,
                )
                &&& events.milestones@ == milestones_reached(
                    old(self).milestones,
                    current,
                    frame.within_town_edge,
                    frame.within_loss_crossroad,
                    frame.within_desert_road,
                )
                &&& final(self).gates@.len() == old(self).gates@.len()
                &&& forall|i: int|
                    0 <= i < old(self).gates@.len() ==> #[trigger] final(self).gates@[i] == observed_gate(
                        old(self).gates@[i],
                        observations@[i],
                        current,
                        frame.perceiving,
                    )
                &&& events.changed_gates@ == changed_gate_ids(
                    old(self).gates@,
                    observations@,
                    current,
                    frame.perceiving,
                )
                &&& events.discovered_gates@ == discovered_ids(
                    old(self).discovered_gates@,
                    events.changed_gates@,
                    final(self).gates@,
                )
                &&& final(self).discovered_gates@ == old(self).discovered_gates@ + events.discovered_gates@
                &&& final(self).nearest_gate == frame.nearest
                &&& events.crossing_started == crossing_starts(
                    final(self).gates@,
                    old(self).regions@,
                    frame.nearest,
                    frame.interact_pressed,
                    frame.within_interaction,
                )
                &&& events.crossing_started ==> exists|g: int|
                    is_first_gate(final(self).gates@, frame.nearest->Some_0.gate_id, g) && final(self).crossing
                        == Some(
                        GateCrossingState {
                            gate_id: final(self).gates@[g].id,
                            gate_kind: final(self).gates@[g].kind,
                            to_region: final(self).gates@[g].to,
                        },
                    )
                &&& !events.crossing_started ==> final(self).crossing is None
            },
    {
        if self.crossing.is_some() {
            let crossed = if frame.crossing_done {
                self.finish_crossing()
            } else {
                None
            };
            return RegionFrameEvents {
                crossed,
                outpost_recorded: false,
                milestones: Vec::new(),
                changed_gates: Vec::new(),
                discovered_gates: Vec::new(),
                crossing_started: false,
            };
        }
        let outpost_recorded = self.record_outpost_arrival(frame.within_outpost);
        let milestones = self.update_region_milestones(
            frame.within_town_edge,
            frame.within_loss_crossroad,
            frame.within_desert_road,
        );
        let changed_gates = self.observe_gates(observations, frame.perceiving);
        let discovered_gates = self.record_discovered_gates(&changed_gates);
        self.nearest_gate = frame.nearest;
        let crossing_started = self.try_begin_crossing(frame.interact_pressed, frame.within_interaction);
        RegionFrameEvents {
            crossed: None,
            outpost_recorded,
            milestones,
            changed_gates,
            discovered_gates,
            crossing_started,
        }
    }
}

impl RegionGraphState {
    /// Stages the boundary beat of the presentation tour at a gate: the
    /// gate shows open (late in the scene) or only hinted, the player stands
    /// in the region that gate leaves, and that gate is the nearest one.
    pub fn showcase_boundary(&mut self, gate_index: usize, opened: bool)
        requires
            gate_index < old(self).gates@.len(),
        ensures
            final(self).gates@ == old(self).gates@.update(
                gate_index as int,
                TransitionGate {
                    state: if opened {
                        TransitionGateState::Open
                    } else {
                        TransitionGateState::Hinted
                    },
                    ..old(self).gates@[gate_index as int]
                },
            ),
            final(self).current_region == old(self).gates@[gate_index as int].from,
            final(self).nearest_gate == Some(
                GateProximity { gate_id: old(self).gates@[gate_index as int].id, open: opened },
            ),
            final(self).regions@ == old(self).regions@,
            final(self).discovered_gates@ == old(self).discovered_gates@,
            final(self).crossing == old(self).crossing,
            final(self).outpost == old(self).outpost,
            final(self).milestones == old(self).milestones,
    {
        let mut gate = self.gates[gate_index];
        gate.state = if opened {
            TransitionGateState::Open
        } else {
            TransitionGateState::Hinted
        };
        self.gates.set(gate_index, gate);
        self.current_region = gate.from;
        self.nearest_gate = Some(GateProximity { gate_id: gate.id, open: opened });
    }
}

/// The region of the given kind in a world of the given seed.
pub open spec fn region_entry(seed: u64, kind: RegionKind) -> WorldRegion {
    let id = RegionId(region_id_spec(seed, kind));
    match kind {
        RegionKind::VillageCoast => WorldRegion {
            id,
            kind,
            seed: derive_seed_spec(seed, 11),
            landmark: Some(RegionLandmarkKind::VillageHeadland),
            boundary: RegionBoundaryKind::Shore,
            profile: RegionProfile {
                biome_bias: RegionBiomeBias::CoastalMeadow,
                weather_bias: RegionWeatherBias::ClearSeaMist,
            },
        },
        RegionKind::GrasslandForest => WorldRegion {
            id,
            kind,
            seed: derive_seed_spec(seed, 17),
            landmark: None,
            boundary: RegionBoundaryKind::MountainPass,
            profile: RegionProfile {
                biome_bias: RegionBiomeBias::CoastalMeadow,
                weather_bias: RegionWeatherBias::ClearSeaMist,
            },
        },
        RegionKind::MountainBoundary => WorldRegion {
            id,
            kind,
            seed: derive_seed_spec(seed, 23),
            landmark: Some(RegionLandmarkKind::MistRiver),
            boundary: RegionBoundaryKind::MistRiver,
            profile: RegionProfile {
                biome_bias: RegionBiomeBias::Ridge,
                weather_bias: RegionWeatherBias::StrongWind,
            },
        },
        RegionKind::Desert => WorldRegion {
            id,
            kind,
            seed: derive_seed_spec(seed, 37),
            landmark: Some(RegionLandmarkKind::DesertPyramid),
            boundary: RegionBoundaryKind::SandstormVeil,
            profile: RegionProfile {
                biome_bias: RegionBiomeBias::DuneAndGobi,
                weather_bias: RegionWeatherBias::Sandstorm,
            },
        },
        RegionKind::FarSea => WorldRegion {
            id,
            kind,
            seed: derive_seed_spec(seed, 53),
            landmark: Some(RegionLandmarkKind::FarIslandLight),
            boundary: RegionBoundaryKind::SeaHorizon,
            profile: RegionProfile {
                biome_bias: RegionBiomeBias::Ocean,
                weather_bias: RegionWeatherBias::OceanFog,
            },
        },
    }
}

/// The gates of the world, in order: the mist river ford from the village
/// coast to the mountain boundary, the grove pass from the village coast to
/// the grassland, the mountain pass from the boundary to the desert and the
/// harbor from the village coast to the far sea.
pub open spec fn gate_plan(index: int) -> (RegionKind, RegionKind, TransitionGateKind, TransitionCondition) {
    if index == 0 {
        (
            RegionKind::VillageCoast,
            RegionKind::MountainBoundary,
            TransitionGateKind::MistRiverFord,
            TransitionCondition::DreamAfterglowAndIntent,
        )
    } else if index == 1 {
        (
            RegionKind::VillageCoast,
            RegionKind::GrasslandForest,
            TransitionGateKind::MountainPass,
            TransitionCondition::DiscoveredPass,
        )
    } else if index == 2 {
        (
            RegionKind::MountainBoundary,
            RegionKind::Desert,
            TransitionGateKind::MountainPass,
            TransitionCondition::DiscoveredPass,
        )
    } else {
        (
            RegionKind::VillageCoast,
            RegionKind::FarSea,
            TransitionGateKind::Harbor,
            TransitionCondition::SeaMethodKnown,
        )
    }
}

/// The hint each gate leaves in the notebook when first perceived.
pub open spec fn gate_hint_text(index: int) -> Seq<char> {
    if index == 0 {
        "雾里有一条旧水声，像是曾经有人从这里离开。"@
    } else if index == 1 {
        "草坡后的林地没有路牌，只有风从两棵树之间穿过。"@
    } else if index == 2 {
        "山风从一道狭缝里吹来，带着干燥的沙味。"@
    } else {
        "海面远处有一点灯，只有雾淡时才像是真的。"@
    }
}

/// A milestone not yet reached.
pub open spec fn fresh_milestone(kind: RegionMilestoneKind, region: RegionId) -> RegionMilestoneState {
    RegionMilestoneState { kind, region, discovered: false, recorded: false }
}

fn new_milestone(kind: RegionMilestoneKind, region: RegionId) -> (r: RegionMilestoneState)
    ensures
        r == fresh_milestone(kind, region),
{
    RegionMilestoneState { kind, region, discovered: false, recorded: false }
}

fn build_region(seed: u64, kind: RegionKind) -> (r: WorldRegion)
    ensures
        r == region_entry(seed, kind),
{
    let id = RegionId(stable_region_id(seed, kind));
    match kind {
        RegionKind::VillageCoast => WorldRegion {
            id,
            kind,
            seed: derive_seed(seed, 11),
            landmark: Some(RegionLandmarkKind::VillageHeadland),
            boundary: RegionBoundaryKind::Shore,
            profile: RegionProfile {
                biome_bias: RegionBiomeBias::CoastalMeadow,
                weather_bias: RegionWeatherBias::ClearSeaMist,
            },
        },
        RegionKind::GrasslandForest => WorldRegion {
            id,
            kind,
            seed: derive_seed(seed, 17),
            landmark: None,
            boundary: RegionBoundaryKind::MountainPass,
            profile: RegionProfile {
                biome_bias: RegionBiomeBias::CoastalMeadow,
                weather_bias: RegionWeatherBias::ClearSeaMist,
            },
        },
        RegionKind::MountainBoundary => WorldRegion {
            id,
            kind,
            seed: derive_seed(seed, 23),
            landmark: Some(RegionLandmarkKind::MistRiver),
            boundary: RegionBoundaryKind::MistRiver,
            profile: RegionProfile {
                biome_bias: RegionBiomeBias::Ridge,
                weather_bias: RegionWeatherBias::StrongWind,
            },
        },
        RegionKind::Desert => WorldRegion {
            id,
            kind,
            seed: derive_seed(seed, 37),
            landmark: Some(RegionLandmarkKind::DesertPyramid),
            boundary: RegionBoundaryKind::SandstormVeil,
            profile: RegionProfile {
                biome_bias: RegionBiomeBias::DuneAndGobi,
                weather_bias: RegionWeatherBias::Sandstorm,
            },
        },
        RegionKind::FarSea => WorldRegion {
            id,
            kind,
            seed: derive_seed(seed, 53),
            landmark: Some(RegionLandmarkKind::FarIslandLight),
            boundary: RegionBoundaryKind::SeaHorizon,
            profile: RegionProfile {
                biome_bias: RegionBiomeBias::Ocean,
                weather_bias: RegionWeatherBias::OceanFog,
            },
        },
    }
}

fn build_gate(
    from: RegionId,
    to: RegionId,
    kind: TransitionGateKind,
    condition: TransitionCondition,
    hint: &'static str,
) -> (r: TransitionGate)
    ensures
        r.id == gate_id_spec(from, to, kind),
        r.from == from,
        r.to == to,
        r.kind == kind,
        r.condition == condition,
        r.state == TransitionGateState::Hidden,
        r.hint == hint,
{
    TransitionGate {
        id: stable_gate_id(from, to, kind),
        from,
        to,
        kind,
        condition,
        state: TransitionGateState::Hidden,
        hint,
    }
}

/// Builds the region graph of a world: its five regions, its four gates,
/// all hidden, the player starting on the village coast, the outpost
/// waiting beyond the mist river and the three milestones on the road from
/// the mountain boundary to the desert.
pub fn build_region_graph(seed: u64) -> (graph: RegionGraphState)
    ensures
        graph.regions@ == seq![
            region_entry(seed, RegionKind::VillageCoast),
            region_entry(seed, RegionKind::GrasslandForest),
            region_entry(seed, RegionKind::MountainBoundary),
            region_entry(seed, RegionKind::Desert),
            region_entry(seed, RegionKind::FarSea),
        ],
        graph.gates@.len() == 4,
        forall|i: int|
            0 <= i < 4 ==> {
                let (from, to, kind, condition) = gate_plan(i);
                let from_id = RegionId(region_id_spec(seed, from));
                let to_id = RegionId(region_id_spec(seed, to));
                &&& (#[trigger] graph.gates@[i]).from == from_id
                &&& graph.gates@[i].to == to_id
                &&& graph.gates@[i].kind == kind
                &&& graph.gates@[i].condition == condition
                &&& graph.gates@[i].id == gate_id_spec(from_id, to_id, kind)
                &&& graph.gates@[i].state == TransitionGateState::Hidden
                &&& graph.gates@[i].hint@ == gate_hint_text(i)
            },
        graph.current_region == RegionId(region_id_spec(seed, RegionKind::VillageCoast)),
        graph.nearest_gate is None,
        graph.discovered_gates@.len() == 0,
        graph.crossing is None,
        graph.outpost == Some(
            RegionOutpostState {
                region: RegionId(region_id_spec(seed, RegionKind::MountainBoundary)),
                discovered: false,
                recorded: false,
            },
        ),
        graph.milestones == (RegionJourneyMilestones {
            town_edge: fresh_milestone(
                RegionMilestoneKind::TownEdge,
                RegionId(region_id_spec(seed, RegionKind::MountainBoundary)),
            ),
            loss_crossroad: fresh_milestone(
                RegionMilestoneKind::LossCrossroad,
                RegionId(region_id_spec(seed, RegionKind::MountainBoundary)),
            ),
            desert_road: fresh_milestone(
                RegionMilestoneKind::DesertRoad,
                RegionId(region_id_spec(seed, RegionKind::Desert)),
            ),
        }),
{
    let village = build_region(seed, RegionKind::VillageCoast);
    let grassland = build_region(seed, RegionKind::GrasslandForest);
    let boundary = build_region(seed, RegionKind::MountainBoundary);
    let desert = build_region(seed, RegionKind::Desert);
    let sea = build_region(seed, RegionKind::FarSea);
    let mut regions: Vec<WorldRegion> = Vec::new();
    regions.push(village);
    regions.push(grassland);
    regions.push(boundary);
    regions.push(desert);
    regions.push(sea);

    let mut gates: Vec<TransitionGate> = Vec::new();
    gates.push(
        build_gate(
            village.id,
            boundary.id,
            TransitionGateKind::MistRiverFord,
            TransitionCondition::DreamAfterglowAndIntent,
            "雾里有一条旧水声，像是曾经有人从这里离开。",
        ),
    );
    gates.push(
        build_gate(
            village.id,
            grassland.id,
            TransitionGateKind::MountainPass,
            TransitionCondition::DiscoveredPass,
            "草坡后的林地没有路牌，只有风从两棵树之间穿过。",
        ),
    );
    gates.push(
        build_gate(
            boundary.id,
            desert.id,
            TransitionGateKind::MountainPass,
            TransitionCondition::DiscoveredPass,
            "山风从一道狭缝里吹来，带着干燥的沙味。",
        ),
    );
    gates.push(
        build_gate(
            village.id,
            sea.id,
            TransitionGateKind::Harbor,
            TransitionCondition::SeaMethodKnown,
            "海面远处有一点灯，只有雾淡时才像是真的。",
        ),
    );
    assert(regions@ =~= seq![
        region_entry(seed, RegionKind::VillageCoast),
        region_entry(seed, RegionKind::GrasslandForest),
        region_entry(seed, RegionKind::MountainBoundary),
        region_entry(seed, RegionKind::Desert),
        region_entry(seed, RegionKind::FarSea),
    ]);
    RegionGraphState {
        regions,
        gates,
        current_region: village.id,
        nearest_gate: None,
        discovered_gates: Vec::new(),
        crossing: None,
        outpost: Some(RegionOutpostState { region: boundary.id, discovered: false, recorded: false }),
        milestones: RegionJourneyMilestones {
            town_edge: new_milestone(RegionMilestoneKind::TownEdge, boundary.id),
            loss_crossroad: new_milestone(RegionMilestoneKind::LossCrossroad, boundary.id),
            desert_road: new_milestone(RegionMilestoneKind::DesertRoad, desert.id),
        },
    }
}

} // verus!
