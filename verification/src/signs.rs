//! Omens: which omen the land shows the wanderer, how guidance toward a
//! meaningful place progresses, and when an omen rises, holds and fades.

use vstd::prelude::*;

use crate::places::PlaceKind;
use crate::world::BiomeKind;

verus! {

/// The omens the land can show.
#[derive(Debug, Clone, Copy, PartialEq, Eq, Structural)]
pub enum OmenKind {
    DawnLight,
    GroveWhisper,
    SummitCall,
    StillWater,
}

/// How far guidance toward the target place has come.
#[derive(Debug, Clone, Copy, PartialEq, Eq, Structural)]
pub enum OmenGuidancePhase {
    Dormant,
    Far,
    DrawingNear,
    Arrived,
    Responding,
}

impl Default for OmenGuidancePhase {
    fn default() -> (r: Self)
        ensures
            r == OmenGuidancePhase::Dormant,
    {
        OmenGuidancePhase::Dormant
    }
}

/// The omen that speaks for a kind of place.
pub open spec fn place_omen(kind: PlaceKind) -> OmenKind {
    match kind {
        PlaceKind::AncientTree => OmenKind::GroveWhisper,
        PlaceKind::SpringEye => OmenKind::StillWater,
        PlaceKind::QuietBay => OmenKind::StillWater,
        PlaceKind::RidgeGate => OmenKind::SummitCall,
        PlaceKind::StoneRing => OmenKind::DawnLight,
    }
}

/// What the senses report this frame, each a threshold already judged:
/// how still the wanderer stands, how low the sun sits, how high and how
/// lush the ground is.
#[derive(Debug, Clone, Copy, PartialEq, Eq, Structural)]
pub struct OmenCues {
    /// A place responds to the wanderer (response above 0.02).
    pub responding: bool,
    /// Stillness above 0.16.
    pub settled: bool,
    /// Stillness above 0.22.
    pub quiet: bool,
    /// Stillness above 0.28.
    pub hushed: bool,
    /// Stillness above 0.65.
    pub motionless: bool,
    /// Horizon glow above 0.48.
    pub low_sun: bool,
    /// Horizon glow above 0.82.
    pub horizon_light: bool,
    /// Elevation above 0.62.
    pub high_ground: bool,
    /// Moisture above 0.68.
    pub lush: bool,
}

/// The omen the land shows: a responding place speaks with its own omen;
/// near the target, the target's omen shows when the moment suits it;
/// otherwise the land itself may show dawn light, a summit call, a grove
/// whisper or still water.
pub open spec fn omen_choice(
    biome: BiomeKind,
    phase: OmenGuidancePhase,
    target_kind: Option<PlaceKind>,
    cues: OmenCues,
) -> Option<OmenKind> {
    if cues.responding {
        match target_kind {
            Some(kind) => Some(place_omen(kind)),
            None => None,
        }
    } else if (phase == OmenGuidancePhase::DrawingNear || phase == OmenGuidancePhase::Arrived) && (
    match target_kind {
        Some(PlaceKind::AncientTree) => cues.settled,
        Some(PlaceKind::SpringEye) => cues.hushed,
        Some(PlaceKind::QuietBay) => cues.hushed,
        Some(PlaceKind::RidgeGate) => true,
        Some(PlaceKind::StoneRing) => cues.low_sun,
        None => false,
    }) {
        Some(place_omen(target_kind.unwrap()))
    } else if cues.horizon_light && biome != BiomeKind::Water {
        Some(OmenKind::DawnLight)
    } else if biome == BiomeKind::Ridge && cues.high_ground {
        Some(OmenKind::SummitCall)
    } else if biome == BiomeKind::Grove && cues.lush && cues.quiet {
        Some(OmenKind::GroveWhisper)
    } else if biome == BiomeKind::Water && cues.motionless {
        Some(OmenKind::StillWater)
    } else {
        None
    }
}

/// Chooses the omen the land shows.
pub fn choose_omen(
    biome: BiomeKind,
    phase: OmenGuidancePhase,
    target_kind: Option<PlaceKind>,
    cues: OmenCues,
) -> (r: Option<OmenKind>)
    ensures
        r == omen_choice(biome, phase, target_kind, cues),
        !cues.responding && phase != OmenGuidancePhase::DrawingNear && phase != OmenGuidancePhase::Arrived ==> {
            &&& cues.horizon_light && biome != BiomeKind::Water ==> r == Some(OmenKind::DawnLight)
            &&& !cues.horizon_light && biome == BiomeKind::Ridge && cues.high_ground ==> r == Some(
                OmenKind::SummitCall,
            )
            &&& !cues.horizon_light && biome == BiomeKind::Grove && cues.lush && cues.quiet ==> r == Some(
                OmenKind::GroveWhisper,
            )
            &&& biome == BiomeKind::Water && cues.motionless ==> r == Some(OmenKind::StillWater)
        },
{
    if cues.responding {
        return match target_kind {
            Some(PlaceKind::AncientTree) => Some(OmenKind::GroveWhisper),
            Some(PlaceKind::SpringEye) => Some(OmenKind::StillWater),
            Some(PlaceKind::QuietBay) => Some(OmenKind::StillWater),
            Some(PlaceKind::RidgeGate) => Some(OmenKind::SummitCall),
            Some(PlaceKind::StoneRing) => Some(OmenKind::DawnLight),
            None => None,
        };
    }
    let near = match phase {
        OmenGuidancePhase::DrawingNear => true,
        OmenGuidancePhase::Arrived => true,
        _ => false,
    };
    if near {
        match target_kind {
            Some(PlaceKind::AncientTree) => {
                if cues.settled {
                    return Some(OmenKind::GroveWhisper);
                }
            },
            Some(PlaceKind::SpringEye) => {
                if cues.hushed {
                    return Some(OmenKind::StillWater);
                }
            },
            Some(PlaceKind::QuietBay) => {
                if cues.hushed {
                    return Some(OmenKind::StillWater);
                }
            },
            Some(PlaceKind::RidgeGate) => {
                return Some(OmenKind::SummitCall);
            },
            Some(PlaceKind::StoneRing) => {
                if cues.low_sun {
                    return Some(OmenKind::DawnLight);
                }
            },
            None => {},
        }
    }
    let is_water = match biome {
        BiomeKind::Water => true,
        _ => false,
    };
    if cues.horizon_light && !is_water {
        Some(OmenKind::DawnLight)
    } else if biome == BiomeKind::Ridge && cues.high_ground {
        Some(OmenKind::SummitCall)
    } else if biome == BiomeKind::Grove && cues.lush && cues.quiet {
        Some(OmenKind::GroveWhisper)
    } else if is_water && cues.motionless {
        Some(OmenKind::StillWater)
    } else {
        None
    }
}

/// Away from a target (no place responding, guidance neither drawing near
/// nor arrived), the omen comes from the land alone: dawn light whenever
/// the horizon glows over dry land; otherwise a summit call from high
/// ground on a ridge, a grove whisper from a lush grove where the wanderer
/// stands quiet, still water where the wanderer stands motionless by the
/// water; and nothing else. Each land omen belongs to its biome: a summit
/// call only on a ridge, a grove whisper only in a grove, still water only
/// by the water, and dawn light never over water.
pub proof fn lemma_land_omens(
    biome: BiomeKind,
    phase: OmenGuidancePhase,
    target_kind: Option<PlaceKind>,
    cues: OmenCues,
)
    requires
        !cues.responding,
        phase != OmenGuidancePhase::DrawingNear,
        phase != OmenGuidancePhase::Arrived,
    ensures
        cues.horizon_light && biome != BiomeKind::Water ==> omen_choice(biome, phase, target_kind, cues)
            == Some(OmenKind::DawnLight),
        !cues.horizon_light && biome == BiomeKind::Ridge && cues.high_ground ==> omen_choice(
            biome,
            phase,
            target_kind,
            cues,
        ) == Some(OmenKind::SummitCall),
        !cues.horizon_light && biome == BiomeKind::Grove && cues.lush && cues.quiet ==> omen_choice(
            biome,
            phase,
            target_kind,
            cues,
        ) == Some(OmenKind::GroveWhisper),
        biome == BiomeKind::Water && cues.motionless ==> omen_choice(biome, phase, target_kind, cues) == Some(
            OmenKind::StillWater,
        ),
        omen_choice(biome, phase, target_kind, cues) == Some(OmenKind::SummitCall) ==> biome
            == BiomeKind::Ridge && cues.high_ground,
        omen_choice(biome, phase, target_kind, cues) == Some(OmenKind::GroveWhisper) ==> biome
            == BiomeKind::Grove && cues.lush && cues.quiet,
        omen_choice(biome, phase, target_kind, cues) == Some(OmenKind::StillWater) ==> biome
            == BiomeKind::Water && cues.motionless,
        omen_choice(biome, phase, target_kind, cues) == Some(OmenKind::DawnLight) ==> biome
            != BiomeKind::Water && cues.horizon_light,
        omen_choice(biome, phase, target_kind, cues) is None <==> !(cues.horizon_light && biome
            != BiomeKind::Water) && !(biome == BiomeKind::Ridge && cues.high_ground) && !(biome
            == BiomeKind::Grove && cues.lush && cues.quiet) && !(biome == BiomeKind::Water
            && cues.motionless),
{
}

/// Near the target (drawing near or arrived), the target's own omen shows
/// when the moment suits its kind: at a ridge gate always, at an ancient
/// tree once the wanderer has settled, at a spring eye or a quiet bay once
/// the wanderer is hushed, at a stone ring when the sun sits low.
pub proof fn lemma_target_omen_when_near(
    biome: BiomeKind,
    phase: OmenGuidancePhase,
    kind: PlaceKind,
    cues: OmenCues,
)
    requires
        !cues.responding,
        phase == OmenGuidancePhase::DrawingNear || phase == OmenGuidancePhase::Arrived,
    ensures
        kind == PlaceKind::RidgeGate ==> omen_choice(biome, phase, Some(kind), cues) == Some(
            OmenKind::SummitCall,
        ),
        kind == PlaceKind::AncientTree && cues.settled ==> omen_choice(biome, phase, Some(kind), cues) == Some(
            OmenKind::GroveWhisper,
        ),
        (kind == PlaceKind::SpringEye || kind == PlaceKind::QuietBay) && cues.hushed ==> omen_choice(
            biome,
            phase,
            Some(kind),
            cues,
        ) == Some(OmenKind::StillWater),
        kind == PlaceKind::StoneRing && cues.low_sun ==> omen_choice(biome, phase, Some(kind), cues) == Some(
            OmenKind::DawnLight,
        ),
{
}

/// While a place responds, the omen is the one of the place's kind,
/// whatever the land and the moment would otherwise show.
pub proof fn lemma_response_speaks_for_place(
    biome: BiomeKind,
    phase: OmenGuidancePhase,
    kind: PlaceKind,
    cues: OmenCues,
)
    requires
        cues.responding,
    ensures
        omen_choice(biome, phase, Some(kind), cues) == Some(place_omen(kind)),
        kind == PlaceKind::AncientTree ==> place_omen(kind) == OmenKind::GroveWhisper,
        (kind == PlaceKind::SpringEye || kind == PlaceKind::QuietBay) ==> place_omen(kind) == OmenKind::StillWater,
        kind == PlaceKind::RidgeGate ==> place_omen(kind) == OmenKind::SummitCall,
        kind == PlaceKind::StoneRing ==> place_omen(kind) == OmenKind::DawnLight,
{
}

/// The guidance phase toward a place: responding while the place
/// responds, arrived within its interaction radius, drawing near within
/// 2.6 arrival radii, and far beyond.
pub open spec fn guidance_phase_spec(responding: bool, within_interaction: bool, within_approach: bool) -> OmenGuidancePhase {
    if responding {
        OmenGuidancePhase::Responding
    } else if within_interaction {
        OmenGuidancePhase::Arrived
    } else if within_approach {
        OmenGuidancePhase::DrawingNear
    } else {
        OmenGuidancePhase::Far
    }
}

/// The guidance phase toward a target place.
pub fn guidance_phase(responding: bool, within_interaction: bool, within_approach: bool) -> (r: OmenGuidancePhase)
    ensures
        r == guidance_phase_spec(responding, within_interaction, within_approach),
{
    if responding {
        OmenGuidancePhase::Responding
    } else if within_interaction {
        OmenGuidancePhase::Arrived
    } else if within_approach {
        OmenGuidancePhase::DrawingNear
    } else {
        OmenGuidancePhase::Far
    }
}

/// Whether an omen shows, and which.
#[derive(Debug, Clone, Copy, PartialEq, Eq, Structural)]
pub struct OmenTrigger {
    pub omen_triggered: bool,
    pub current_omen: Option<OmenKind>,
}

/// Resonance and calm against their thresholds, each already judged.
#[derive(Debug, Clone, Copy, PartialEq, Eq, Structural)]
pub struct OmenThresholds {
    /// Resonance at or above the threshold.
    pub resonant: bool,
    /// Calm at or above the calm threshold.
    pub calm: bool,
    /// Resonance at or above 0.56 thresholds.
    pub lingering: bool,
    /// Calm at or above 0.55 calm thresholds.
    pub steady: bool,
    /// Resonance below half the threshold.
    pub faded: bool,
    /// A target place guides the wanderer.
    pub has_target: bool,
    /// The cooldown after the last omen has run out.
    pub rested: bool,
}

/// What one step of the omen does.
#[derive(Debug, Clone, Copy, PartialEq, Eq, Structural)]
pub struct OmenStep {
    pub trigger: OmenTrigger,
    /// The omen newly rose after a rest, and costs some calm.
    pub calm_cost: bool,
    /// The omen just faded, and the cooldown starts.
    pub start_cooldown: bool,
    /// The omen rose in this step.
    pub activated: bool,
}

/// One step of the omen: it rises when resonance and calm reach their
/// thresholds and an omen is at hand, holds near a target on weaker
/// resonance and calm, and fades when resonance drops below half the
/// threshold or no target guides; otherwise it stays as it was.
pub open spec fn omen_step_spec(previous: OmenTrigger, omen: Option<OmenKind>, levels: OmenThresholds) -> OmenStep {
    let rises = levels.resonant && levels.calm && omen is Some;
    let holds = levels.lingering && levels.steady && omen is Some && levels.has_target;
    let fades = levels.faded || !levels.has_target;
    let next = if rises || holds {
        OmenTrigger { omen_triggered: true, current_omen: omen }
    } else if fades {
        OmenTrigger { omen_triggered: false, current_omen: None }
    } else {
        previous
    };
    OmenStep {
        trigger: next,
        calm_cost: rises && !previous.omen_triggered && levels.rested,
        start_cooldown: !rises && !holds && fades && previous.omen_triggered,
        activated: next.omen_triggered && !previous.omen_triggered,
    }
}

/// Advances the omen by one step.
pub fn advance_omen(previous: OmenTrigger, omen: Option<OmenKind>, levels: OmenThresholds) -> (r: OmenStep)
    ensures
        r == omen_step_spec(previous, omen, levels),
{
    let rises = levels.resonant && levels.calm && omen.is_some();
    let holds = levels.lingering && levels.steady && omen.is_some() && levels.has_target;
    let fades = levels.faded || !levels.has_target;
    let next = if rises || holds {
        OmenTrigger { omen_triggered: true, current_omen: omen }
    } else if fades {
        OmenTrigger { omen_triggered: false, current_omen: None }
    } else {
        previous
    };
    OmenStep {
        trigger: next,
        calm_cost: rises && !previous.omen_triggered && levels.rested,
        start_cooldown: !rises && !holds && fades && previous.omen_triggered,
        activated: next.omen_triggered && !previous.omen_triggered,
    }
}

/// A shown omen always names its kind, and no omen is named while none
/// shows: every step keeps this, and a step activates exactly when the
/// omen goes from hidden to shown.
pub proof fn lemma_omen_step_keeps_trigger_consistent(
    previous: OmenTrigger,
    omen: Option<OmenKind>,
    levels: OmenThresholds,
)
    requires
        previous.omen_triggered <==> previous.current_omen is Some,
    ensures
        omen_step_spec(previous, omen, levels).trigger.omen_triggered
            <==> omen_step_spec(previous, omen, levels).trigger.current_omen is Some,
        omen_step_spec(previous, omen, levels).activated <==> (!previous.omen_triggered
            && omen_step_spec(previous, omen, levels).trigger.omen_triggered),
        omen_step_spec(previous, omen, levels).start_cooldown ==> previous.omen_triggered
            && !omen_step_spec(previous, omen, levels).trigger.omen_triggered,
{
}


/// How an omen rises, holds and fades. With resonance and calm at their
/// thresholds and an omen at hand, that omen shows. Near a target, weaker
/// but lingering resonance and steady calm keep it showing. Without those,
/// it stops showing once resonance has faded or no target guides, and
/// otherwise stays as it was. A shown omen is the one at hand or the one
/// shown before. Calm is spent only when an omen newly rises after a rest,
/// and the cooldown starts only when a shown omen stops showing.
pub proof fn lemma_omen_rises_holds_fades(previous: OmenTrigger, omen: Option<OmenKind>, levels: OmenThresholds)
    ensures
        ({
            let step = omen_step_spec(previous, omen, levels);
            &&& levels.resonant && levels.calm && omen is Some ==> step.trigger.omen_triggered
                && step.trigger.current_omen == omen
            &&& levels.lingering && levels.steady && levels.has_target && omen is Some
                ==> step.trigger.omen_triggered && step.trigger.current_omen == omen
            &&& !(levels.resonant && levels.calm && omen is Some) && !(levels.lingering && levels.steady
                && levels.has_target && omen is Some) && (levels.faded || !levels.has_target)
                ==> !step.trigger.omen_triggered && step.trigger.current_omen is None
            &&& !(levels.resonant && levels.calm && omen is Some) && !(levels.lingering && levels.steady
                && levels.has_target && omen is Some) && !levels.faded && levels.has_target
                ==> step.trigger == previous
            &&& step.trigger.omen_triggered ==> step.trigger.current_omen == omen || step.trigger == previous
            &&& step.calm_cost <==> levels.resonant && levels.calm && omen is Some && !previous.omen_triggered
                && levels.rested
            &&& step.start_cooldown ==> previous.omen_triggered && !step.trigger.omen_triggered
            &&& previous.omen_triggered && !step.trigger.omen_triggered ==> step.start_cooldown
        }),
{
}

/// The guidance phase goes by the closest relation that holds: responding
/// while the place responds, arrived within its interaction radius,
/// drawing near within its approach range, far otherwise; it is never
/// dormant while a target guides.
pub proof fn lemma_guidance_phase_order(responding: bool, within_interaction: bool, within_approach: bool)
    ensures
        guidance_phase_spec(responding, within_interaction, within_approach) == OmenGuidancePhase::Responding
            <==> responding,
        guidance_phase_spec(responding, within_interaction, within_approach) == OmenGuidancePhase::Arrived
            <==> !responding && within_interaction,
        guidance_phase_spec(responding, within_interaction, within_approach) == OmenGuidancePhase::DrawingNear
            <==> !responding && !within_interaction && within_approach,
        guidance_phase_spec(responding, within_interaction, within_approach) == OmenGuidancePhase::Far
            <==> !responding && !within_interaction && !within_approach,
{
}


/// What the HUD reports of the guidance between two frames.
#[derive(Debug, Clone, Copy, PartialEq, Eq, Structural)]
pub struct GuidanceSnapshot {
    pub target_place_id: Option<u64>,
    pub guidance_phase: OmenGuidancePhase,
    pub current_omen: Option<OmenKind>,
}

/// Whether the guidance changed enough to be reported: another target,
/// another phase, another omen, an intensity jump of more than 0.35
/// (`intensity_jumped`), or a place that just began to respond
/// (`response_began`).
pub fn sign_guidance_changed(
    previous: GuidanceSnapshot,
    current: GuidanceSnapshot,
    intensity_jumped: bool,
    response_began: bool,
) -> (r: bool)
    ensures
        r == (previous.target_place_id != current.target_place_id || previous.guidance_phase
            != current.guidance_phase || previous.current_omen != current.current_omen || intensity_jumped
            || response_began),
{
    previous.target_place_id != current.target_place_id || previous.guidance_phase != current.guidance_phase
        || previous.current_omen != current.current_omen || intensity_jumped || response_began
}

} // verus!
