//! The opening village: its areas and actors, stable identifiers, house
//! doors and the first herding walk with the flock.

use vstd::prelude::*;

verus! {

/// The named parts of the village.
#[derive(Debug, Clone, Copy, PartialEq, Eq, Structural)]
pub enum VillageAreaKind {
    Houses,
    SheepPen,
    Well,
    Market,
    Shore,
    OuterPath,
}

impl VillageAreaKind {
    /// Display name of the area.
    pub open spec fn label_text(self) -> Seq<char> {
        match self {
            VillageAreaKind::Houses => "屋舍"@,
            VillageAreaKind::SheepPen => "羊圈"@,
            VillageAreaKind::Well => "水井"@,
            VillageAreaKind::Market => "集市"@,
            VillageAreaKind::Shore => "海边"@,
            VillageAreaKind::OuterPath => "村外小路"@,
        }
    }

    /// Display name of the area.
    pub fn label(self) -> (r: &'static str)
        ensures
            r@ == self.label_text(),
    {
        match self {
            VillageAreaKind::Houses => "屋舍",
            VillageAreaKind::SheepPen => "羊圈",
            VillageAreaKind::Well => "水井",
            VillageAreaKind::Market => "集市",
            VillageAreaKind::Shore => "海边",
            VillageAreaKind::OuterPath => "村外小路",
        }
    }
}

/// The steps of the first herding walk, in the order they are taken.
#[derive(Debug, Clone, Copy, PartialEq, Eq, Structural)]
pub enum HerdingPhase {
    NotStarted,
    Prompted,
    FollowingToGrass,
    GrazingAtPatch,
    ReturningToPen,
    Completed,
}

impl HerdingPhase {
    /// Position of the phase along the walk.
    pub open spec fn rank(self) -> int {
        match self {
            HerdingPhase::NotStarted => 0,
            HerdingPhase::Prompted => 1,
            HerdingPhase::FollowingToGrass => 2,
            HerdingPhase::GrazingAtPatch => 3,
            HerdingPhase::ReturningToPen => 4,
            HerdingPhase::Completed => 5,
        }
    }

    /// Display name of the phase.
    pub open spec fn label_text(self) -> Seq<char> {
        match self {
            HerdingPhase::NotStarted => "未开始"@,
            HerdingPhase::Prompted => "准备放羊"@,
            HerdingPhase::FollowingToGrass => "带羊去草地"@,
            HerdingPhase::GrazingAtPatch => "羊群吃草"@,
            HerdingPhase::ReturningToPen => "带羊回圈"@,
            HerdingPhase::Completed => "第一次放羊完成"@,
        }
    }

    /// Display name of the phase.
    pub fn label(self) -> (r: &'static str)
        ensures
            r@ == self.label_text(),
    {
        match self {
            HerdingPhase::NotStarted => "未开始",
            HerdingPhase::Prompted => "准备放羊",
            HerdingPhase::FollowingToGrass => "带羊去草地",
            HerdingPhase::GrazingAtPatch => "羊群吃草",
            HerdingPhase::ReturningToPen => "带羊回圈",
            HerdingPhase::Completed => "第一次放羊完成",
        }
    }
}

/// Who lives in the village.
#[derive(Debug, Clone, Copy, PartialEq, Eq, Structural)]
pub enum VillageActorKind {
    Sheep,
    Shepherd,
    Merchant,
}

impl VillageActorKind {
    /// Display name of the actor.
    pub open spec fn label_text(self) -> Seq<char> {
        match self {
            VillageActorKind::Sheep => "羊"@,
            VillageActorKind::Shepherd => "牧羊人"@,
            VillageActorKind::Merchant => "商人"@,
        }
    }

    /// Display name of the actor.
    pub fn label(self) -> (r: &'static str)
        ensures
            r@ == self.label_text(),
    {
        match self {
            VillageActorKind::Sheep => "羊",
            VillageActorKind::Shepherd => "牧羊人",
            VillageActorKind::Merchant => "商人",
        }
    }

    /// What the player may do with the actor.
    pub open spec fn prompt_text(self) -> Seq<char> {
        match self {
            VillageActorKind::Sheep => "可安抚"@,
            VillageActorKind::Shepherd | VillageActorKind::Merchant => "可交谈"@,
        }
    }

    /// What the player may do with the actor.
    pub fn prompt(self) -> (r: &'static str)
        ensures
            r@ == self.prompt_text(),
    {
        match self {
            VillageActorKind::Sheep => "可安抚",
            VillageActorKind::Shepherd | VillageActorKind::Merchant => "可交谈",
        }
    }
}

/// What an actor does by default.
#[derive(Debug, Clone, Copy, PartialEq, Eq, Structural)]
pub enum VillageBehavior {
    Grazing,
    Tending,
    Trading,
}

/// What a village collider proxy stands for.
#[derive(Debug, Clone, Copy, PartialEq, Eq, Structural)]
pub enum VillageColliderKind {
    House,
    InteriorProp,
    Well,
    SheepPenRail,
    MarketStall,
    Actor,
}

/// The light band of the village day.
#[derive(Debug, Clone, Copy, PartialEq, Eq, Structural)]
pub enum VillageDayPhase {
    Dawn,
    Day,
    Dusk,
    Night,
}

impl VillageDayPhase {
    /// Name of the band in logs.
    pub open spec fn label_text(self) -> Seq<char> {
        match self {
            VillageDayPhase::Dawn => "dawn"@,
            VillageDayPhase::Day => "day"@,
            VillageDayPhase::Dusk => "dusk"@,
            VillageDayPhase::Night => "night"@,
        }
    }

    /// Name of the band in logs.
    pub fn label(self) -> (r: &'static str)
        ensures
            r@ == self.label_text(),
    {
        match self {
            VillageDayPhase::Dawn => "dawn",
            VillageDayPhase::Day => "day",
            VillageDayPhase::Dusk => "dusk",
            VillageDayPhase::Night => "night",
        }
    }
}

/// Where the shepherd is in his daily round.
#[derive(Debug, Clone, Copy, PartialEq, Eq, Structural)]
pub enum ShepherdSchedulePhase {
    TendingFlock,
    WatchingGate,
    ReturningVillage,
    RestingVillage,
}


/// Progress of the first herding walk; the grass patch, the pen and the
/// flock's center are placed with the terrain geometry.
#[derive(Debug, Clone, Copy, PartialEq, Eq, Structural)]
pub struct HerdingState {
    pub phase: HerdingPhase,
    pub task_available: bool,
    pub flock_following_player: bool,
    pub player_has_seen_flock: bool,
    pub grass_patch_reached: bool,
    pub pen_returned: bool,
    pub first_task_completed: bool,
}

impl Default for HerdingState {
    /// The walk before the player has met the flock.
    fn default() -> (r: Self)
        ensures
            r == Self::initial(),
    {
        HerdingState {
            phase: HerdingPhase::NotStarted,
            task_available: false,
            flock_following_player: false,
            player_has_seen_flock: false,
            grass_patch_reached: false,
            pen_returned: false,
            first_task_completed: false,
        }
    }
}

impl HerdingState {
    /// The walk before the player has met the flock.
    pub open spec fn initial() -> Self {
        HerdingState {
            phase: HerdingPhase::NotStarted,
            task_available: false,
            flock_following_player: false,
            player_has_seen_flock: false,
            grass_patch_reached: false,
            pen_returned: false,
            first_task_completed: false,
        }
    }

    /// What every reachable walk satisfies: the walk is only offered once
    /// the flock has been seen, it only starts once offered, the flock is only at the
    /// grass or on its way home once the grass was reached, and the task
    /// counts as completed exactly when the walk is complete (after the pen
    /// was reached).
    pub open spec fn well_formed(self) -> bool {
        &&& self.phase.rank() >= 1 ==> self.player_has_seen_flock
        &&& self.task_available ==> self.player_has_seen_flock
        &&& self.phase.rank() >= 2 ==> self.task_available
        &&& self.phase.rank() >= 3 ==> self.grass_patch_reached
        &&& self.phase == HerdingPhase::Completed ==> self.pen_returned
        &&& self.first_task_completed <==> self.phase == HerdingPhase::Completed
    }
}

/// What an interaction with the flock did.
#[derive(Debug, Clone, Copy, PartialEq, Eq, Structural)]
pub enum HerdingInteraction {
    /// The walk began: the flock follows the player towards the grass.
    Started,
    /// The flock, having eaten, follows the player home.
    HeadingHome,
    /// The flock was called away from the grass to follow the player home.
    CalledHome,
    /// The flock is back in its pen and the first walk is complete.
    Completed,
}

/// The effect of the player interacting with the flock: the walk starts
/// once it is offered; near the flock, a flock that reached the grass is
/// led home, a grazing flock is called home, and a flock whose pen was
/// reached settles and completes the walk. Otherwise nothing happens.
pub open spec fn herding_interaction_spec(state: HerdingState, near_flock: bool) -> (
    HerdingState,
    Option<HerdingInteraction>,
) {
    match state.phase {
        HerdingPhase::NotStarted | HerdingPhase::Prompted => if state.task_available {
            (
                HerdingState {
                    phase: HerdingPhase::FollowingToGrass,
                    flock_following_player: true,
                    ..state
                },
                Some(HerdingInteraction::Started),
            )
        } else {
            (state, None)
        },
        HerdingPhase::FollowingToGrass => if near_flock && state.grass_patch_reached {
            (
                HerdingState {
                    phase: HerdingPhase::ReturningToPen,
                    flock_following_player: true,
                    ..state
                },
                Some(HerdingInteraction::HeadingHome),
            )
        } else {
            (state, None)
        },
        HerdingPhase::GrazingAtPatch => if near_flock {
            (
                HerdingState {
                    phase: HerdingPhase::ReturningToPen,
                    flock_following_player: true,
                    ..state
                },
                Some(HerdingInteraction::CalledHome),
            )
        } else {
            (state, None)
        },
        HerdingPhase::ReturningToPen => if near_flock && state.pen_returned {
            (
                HerdingState {
                    phase: HerdingPhase::Completed,
                    flock_following_player: false,
                    first_task_completed: true,
                    ..state
                },
                Some(HerdingInteraction::Completed),
            )
        } else {
            (state, None)
        },
        HerdingPhase::Completed => (state, None),
    }
}

/// What an interaction can do to the walk. Only an offered walk can start,
/// and it starts wherever the player stands; every later step needs the
/// player near the flock, so away from the flock a walk under way is left
/// exactly as it was. Each answer names the step it took: the walk starts
/// from before it began, the flock heads home from the grass once it got
/// there, a grazing flock is called home, and a flock back at its pen
/// completes the walk. The walk never goes back a phase, an interaction
/// that answers nothing changes nothing, and a well-formed walk stays
/// well-formed.
pub proof fn lemma_herding_interaction_steps(state: HerdingState, near_flock: bool)
    ensures
        ({
            let (after, r) = herding_interaction_spec(state, near_flock);
            &&& !near_flock && state.phase != HerdingPhase::NotStarted && state.phase != HerdingPhase::Prompted
                ==> r is None && after == state
            &&& r is None ==> after == state
            &&& r == Some(HerdingInteraction::Started) <==> (state.phase == HerdingPhase::NotStarted
                || state.phase == HerdingPhase::Prompted) && state.task_available
            &&& r == Some(HerdingInteraction::HeadingHome) <==> state.phase == HerdingPhase::FollowingToGrass
                && near_flock && state.grass_patch_reached
            &&& r == Some(HerdingInteraction::CalledHome) <==> state.phase == HerdingPhase::GrazingAtPatch
                && near_flock
            &&& r == Some(HerdingInteraction::Completed) <==> state.phase == HerdingPhase::ReturningToPen
                && near_flock && state.pen_returned
            &&& r == Some(HerdingInteraction::Started) ==> after.phase == HerdingPhase::FollowingToGrass
                && after.flock_following_player
            &&& (r == Some(HerdingInteraction::HeadingHome) || r == Some(HerdingInteraction::CalledHome))
                ==> after.phase == HerdingPhase::ReturningToPen && after.flock_following_player
            &&& r == Some(HerdingInteraction::Completed) ==> after.phase == HerdingPhase::Completed
                && !after.flock_following_player && after.first_task_completed
            &&& after.phase.rank() >= state.phase.rank()
            &&& state.well_formed() ==> after.well_formed()
        }),
{
}

/// Applies the player's interaction with the flock; returns what happened,
/// or `None` when the interaction did not concern the walk.
pub fn interact_with_flock(state: &mut HerdingState, near_flock: bool) -> (r: Option<
    HerdingInteraction,
>)
    ensures
        (*final(state), r) == herding_interaction_spec(*old(state), near_flock),
        !near_flock && old(state).phase != HerdingPhase::NotStarted && old(state).phase != HerdingPhase::Prompted
            ==> r is None && *final(state) == *old(state),
        r is None ==> *final(state) == *old(state),
        r == Some(HerdingInteraction::CalledHome) <==> old(state).phase == HerdingPhase::GrazingAtPatch
            && near_flock,
{
    match state.phase {
        HerdingPhase::NotStarted | HerdingPhase::Prompted => {
            if state.task_available {
                state.phase = HerdingPhase::FollowingToGrass;
                state.flock_following_player = true;
                Some(HerdingInteraction::Started)
            } else {
                None
            }
        },
        HerdingPhase::FollowingToGrass => {
            if near_flock && state.grass_patch_reached {
                state.phase = HerdingPhase::ReturningToPen;
                state.flock_following_player = true;
                Some(HerdingInteraction::HeadingHome)
            } else {
                None
            }
        },
        HerdingPhase::GrazingAtPatch => {
            if near_flock {
                state.phase = HerdingPhase::ReturningToPen;
                state.flock_following_player = true;
                Some(HerdingInteraction::CalledHome)
            } else {
                None
            }
        },
        HerdingPhase::ReturningToPen => {
            if near_flock && state.pen_returned {
                state.phase = HerdingPhase::Completed;
                state.flock_following_player = false;
                state.first_task_completed = true;
                Some(HerdingInteraction::Completed)
            } else {
                None
            }
        },
        HerdingPhase::Completed => None,
    }
}

/// What a frame of herding did, for the notebook and the flock's motion.
#[derive(Debug, Clone, Copy, PartialEq, Eq, Structural)]
pub struct HerdingTick {
    /// The player met the flock for the first time; the walk is offered.
    pub noticed_flock: bool,
    /// The flock reached the grass and started grazing.
    pub reached_grass: bool,
    /// The flock following home reached its pen.
    pub reached_pen: bool,
}

/// One frame of the walk: meeting the flock for the first time offers the
/// walk; a flock following to the grass starts grazing once the player
/// reaches the grass; a flock following home counts as returned once the
/// player reaches the pen.
pub open spec fn herding_tick_spec(
    state: HerdingState,
    near_flock: bool,
    near_grass: bool,
    near_pen: bool,
) -> (HerdingState, HerdingTick) {
    let noticed = !state.player_has_seen_flock && near_flock;
    let seen = if noticed {
        HerdingState {
            player_has_seen_flock: true,
            task_available: true,
            phase: HerdingPhase::Prompted,
            ..state
        }
    } else {
        state
    };
    match seen.phase {
        HerdingPhase::FollowingToGrass => if near_grass {
            (
                HerdingState {
                    phase: HerdingPhase::GrazingAtPatch,
                    flock_following_player: false,
                    grass_patch_reached: true,
                    ..seen
                },
                HerdingTick { noticed_flock: noticed, reached_grass: true, reached_pen: false },
            )
        } else {
            (seen, HerdingTick { noticed_flock: noticed, reached_grass: false, reached_pen: false })
        },
        HerdingPhase::ReturningToPen => if near_pen {
            (
                HerdingState { pen_returned: true, ..seen },
                HerdingTick { noticed_flock: noticed, reached_grass: false, reached_pen: true },
            )
        } else {
            (seen, HerdingTick { noticed_flock: noticed, reached_grass: false, reached_pen: false })
        },
        _ => (seen, HerdingTick { noticed_flock: noticed, reached_grass: false, reached_pen: false }),
    }
}

/// Advances the walk by one frame given where the player stands.
pub fn advance_herding(
    state: &mut HerdingState,
    near_flock: bool,
    near_grass: bool,
    near_pen: bool,
) -> (tick: HerdingTick)
    ensures
        (*final(state), tick) == herding_tick_spec(*old(state), near_flock, near_grass, near_pen),
{
    let noticed = !state.player_has_seen_flock && near_flock;
    if noticed {
        state.player_has_seen_flock = true;
        state.task_available = true;
        state.phase = HerdingPhase::Prompted;
    }
    match state.phase {
        HerdingPhase::FollowingToGrass => {
            if near_grass {
                state.phase = HerdingPhase::GrazingAtPatch;
                state.flock_following_player = false;
                state.grass_patch_reached = true;
                HerdingTick { noticed_flock: noticed, reached_grass: true, reached_pen: false }
            } else {
                HerdingTick { noticed_flock: noticed, reached_grass: false, reached_pen: false }
            }
        },
        HerdingPhase::ReturningToPen => {
            if near_pen {
                state.pen_returned = true;
                HerdingTick { noticed_flock: noticed, reached_grass: false, reached_pen: true }
            } else {
                HerdingTick { noticed_flock: noticed, reached_grass: false, reached_pen: false }
            }
        },
        _ => HerdingTick { noticed_flock: noticed, reached_grass: false, reached_pen: false },
    }
}

/// What a frame of the walk can do. Meeting the flock for the first time
/// offers the walk. A flock following the player to the grass starts
/// grazing there once the player reaches it, and stops following; a flock
/// following home is back once the player reaches the pen. Nothing else
/// changes the walk in a frame.
pub proof fn lemma_herding_tick_events(state: HerdingState, near_flock: bool, near_grass: bool, near_pen: bool)
    ensures
        ({
            let (after, tick) = herding_tick_spec(state, near_flock, near_grass, near_pen);
            let noticed = !state.player_has_seen_flock && near_flock;
            &&& tick.noticed_flock <==> noticed
            &&& noticed ==> after.player_has_seen_flock && after.task_available && after.phase
                == HerdingPhase::Prompted
            &&& tick.reached_grass <==> !noticed && state.phase == HerdingPhase::FollowingToGrass && near_grass
            &&& tick.reached_grass ==> after.phase == HerdingPhase::GrazingAtPatch && !after.flock_following_player
                && after.grass_patch_reached
            &&& tick.reached_pen <==> !noticed && state.phase == HerdingPhase::ReturningToPen && near_pen
            &&& tick.reached_pen ==> after.pen_returned && after.phase == HerdingPhase::ReturningToPen
            &&& !tick.noticed_flock && !tick.reached_grass && !tick.reached_pen ==> after == state
        }),
{
}

/// The herding walk only moves forward: from any reachable state, neither a
/// frame nor an interaction takes it back to an earlier phase, and both keep
/// it reachable. In particular the task counts as completed exactly when the
/// walk is complete, and a completed walk stays completed.
pub proof fn lemma_herding_progress_is_monotone(
    state: HerdingState,
    near_flock: bool,
    near_grass: bool,
    near_pen: bool,
)
    requires
        state.well_formed(),
    ensures
        ({
            let (after_tick, _) = herding_tick_spec(state, near_flock, near_grass, near_pen);
            let (after_interaction, _) = herding_interaction_spec(state, near_flock);
            &&& after_tick.well_formed()
            &&& after_interaction.well_formed()
            &&& after_tick.phase.rank() >= state.phase.rank()
            &&& after_interaction.phase.rank() >= state.phase.rank()
            &&& state.first_task_completed ==> after_tick.first_task_completed
                && after_interaction.first_task_completed
        }),
{
}

/// The walk starts reachable.
pub proof fn lemma_initial_herding_is_well_formed()
    ensures
        HerdingState::initial().well_formed(),
{
}


/// The identifier mixing behind house identifiers.
pub open spec fn house_id_spec(index: u64) -> u64 {
    let v0 = vstd::wrapping::u64_specs::wrapping_add(
        vstd::wrapping::u64_specs::wrapping_mul(index, 0xD1B5_4A32_D192_ED03u64),
        0xA24B_AED4_963E_E407u64,
    );
    let v1 = v0 ^ (v0 >> 29u64);
    let v2 = vstd::wrapping::u64_specs::wrapping_mul(v1, 0x9FB2_1C65_1E98_DF25u64);
    v2 ^ (v2 >> 32u64)
}

/// Stable identifier of the house with the given layout index.
pub fn stable_house_id(index: u64) -> (r: u64)
    ensures
        r == house_id_spec(index),
{
    let mut value = index.wrapping_mul(0xD1B5_4A32_D192_ED03u64).wrapping_add(0xA24B_AED4_963E_E407u64);
    value = value ^ (value >> 29u64);
    value = value.wrapping_mul(0x9FB2_1C65_1E98_DF25u64);
    value ^ (value >> 32u64)
}

/// The salt that separates the identifiers of each kind of actor.
pub open spec fn actor_salt(kind: VillageActorKind) -> u64 {
    match kind {
        VillageActorKind::Sheep => 11,
        VillageActorKind::Shepherd => 23,
        VillageActorKind::Merchant => 37,
    }
}

/// The identifier mixing behind actor identifiers.
pub open spec fn actor_id_spec(index: u64, kind: VillageActorKind) -> u64 {
    let v0 = vstd::wrapping::u64_specs::wrapping_add(
        vstd::wrapping::u64_specs::wrapping_mul(index, 0x9E37_79B9_7F4A_7C15u64),
        actor_salt(kind),
    );
    let v1 = v0 ^ (v0 >> 30u64);
    let v2 = vstd::wrapping::u64_specs::wrapping_mul(v1, 0xBF58_476D_1CE4_E5B9u64);
    v2 ^ (v2 >> 27u64)
}

/// Stable identifier of an actor from its layout index and kind.
pub fn stable_actor_id(index: u64, kind: VillageActorKind) -> (r: u64)
    ensures
        r == actor_id_spec(index, kind),
{
    let salt: u64 = match kind {
        VillageActorKind::Sheep => 11,
        VillageActorKind::Shepherd => 23,
        VillageActorKind::Merchant => 37,
    };
    let mut value = index.wrapping_mul(0x9E37_79B9_7F4A_7C15u64).wrapping_add(salt);
    value = value ^ (value >> 30u64);
    value = value.wrapping_mul(0xBF58_476D_1CE4_E5B9u64);
    value ^ (value >> 27u64)
}

/// Who an actor of the village is and what it does; where it lives is
/// placed with the terrain geometry.
#[derive(Debug, Clone, Copy, PartialEq, Eq, Structural)]
pub struct VillageActorIdentity {
    pub id: u64,
    pub kind: VillageActorKind,
    pub behavior: VillageBehavior,
}

/// The flock of a village asked for `sheep_count` sheep: never fewer than
/// four.
pub open spec fn flock_size(sheep_count: usize) -> int {
    if sheep_count < 4 {
        4
    } else {
        sheep_count as int
    }
}

/// The village's actors in layout order: the sheep of the flock (at least
/// four), then the shepherd, then the merchant.
pub fn village_actor_roster(sheep_count: usize) -> (r: Vec<VillageActorIdentity>)
    requires
        sheep_count < usize::MAX - 2,
    ensures
        r@.len() == flock_size(sheep_count) + 2,
        forall|i: int|
            0 <= i < flock_size(sheep_count) ==> #[trigger] r@[i] == (VillageActorIdentity {
                id: actor_id_spec(i as u64, VillageActorKind::Sheep),
                kind: VillageActorKind::Sheep,
                behavior: VillageBehavior::Grazing,
            }),
        r@[flock_size(sheep_count)] == (VillageActorIdentity {
            id: actor_id_spec(91, VillageActorKind::Shepherd),
            kind: VillageActorKind::Shepherd,
            behavior: VillageBehavior::Tending,
        }),
        r@[flock_size(sheep_count) + 1] == (VillageActorIdentity {
            id: actor_id_spec(137, VillageActorKind::Merchant),
            kind: VillageActorKind::Merchant,
            behavior: VillageBehavior::Trading,
        }),
{
    let flock: usize = if sheep_count < 4 {
        4
    } else {
        sheep_count
    };
    let mut actors: Vec<VillageActorIdentity> = Vec::new();
    let mut i: usize = 0;
    while i < flock
        invariant
            i <= flock,
            flock as int == flock_size(sheep_count),
            actors@.len() == i,
            forall|j: int|
                0 <= j < i ==> #[trigger] actors@[j] == (VillageActorIdentity {
                    id: actor_id_spec(j as u64, VillageActorKind::Sheep),
                    kind: VillageActorKind::Sheep,
                    behavior: VillageBehavior::Grazing,
                }),
        decreases flock - i,
    {
        actors.push(
            VillageActorIdentity {
                id: stable_actor_id(i as u64, VillageActorKind::Sheep),
                kind: VillageActorKind::Sheep,
                behavior: VillageBehavior::Grazing,
            },
        );
        i = i + 1;
    }
    actors.push(
        VillageActorIdentity {
            id: stable_actor_id(91, VillageActorKind::Shepherd),
            kind: VillageActorKind::Shepherd,
            behavior: VillageBehavior::Tending,
        },
    );
    actors.push(
        VillageActorIdentity {
            id: stable_actor_id(137, VillageActorKind::Merchant),
            kind: VillageActorKind::Merchant,
            behavior: VillageBehavior::Trading,
        },
    );
    actors
}

/// The number of houses of a village asked for `house_count`: never fewer
/// than three.
pub open spec fn house_total(house_count: usize) -> int {
    if house_count < 3 {
        3
    } else {
        house_count as int
    }
}

/// The identifiers of the village houses in layout order (at least three).
pub fn village_house_ids(house_count: usize) -> (r: Vec<u64>)
    ensures
        r@.len() == house_total(house_count),
        forall|i: int| 0 <= i < house_total(house_count) ==> #[trigger] r@[i] == house_id_spec(i as u64),
{
    let total: usize = if house_count < 3 {
        3
    } else {
        house_count
    };
    let mut ids: Vec<u64> = Vec::new();
    let mut i: usize = 0;
    while i < total
        invariant
            i <= total,
            total as int == house_total(house_count),
            ids@.len() == i,
            forall|j: int| 0 <= j < i ==> #[trigger] ids@[j] == house_id_spec(j as u64),
        decreases total - i,
    {
        ids.push(stable_house_id(i as u64));
        i = i + 1;
    }
    ids
}

/// The house nearest to the player within reach, and whether the player is
/// inside it.
#[derive(Debug, Clone, Copy, PartialEq, Eq, Structural)]
pub struct VillageHouseSnapshot {
    pub id: u64,
    pub inside: bool,
}

/// Whether the player is inside a house.
#[derive(Debug, Clone, Copy, PartialEq, Eq, Structural)]
pub struct HouseOccupancy {
    pub id: u64,
    pub occupied_by_player: bool,
}

/// What pushing a house door did.
#[derive(Debug, Clone, Copy, PartialEq, Eq, Structural)]
pub enum HouseTransition {
    Entered,
    Left,
}

/// Pushes the door of the nearest house: from inside the player leaves the
/// house, from outside the player enters it. Only the first house with the
/// snapshot's identifier changes; nothing happens without a house in reach
/// or when no house carries the identifier.
pub fn use_house_door(houses: &mut Vec<HouseOccupancy>, nearest: Option<VillageHouseSnapshot>) -> (r:
    Option<HouseTransition>)
    ensures
        final(houses)@.len() == old(houses)@.len(),
        match nearest {
            None => r is None && final(houses)@ == old(houses)@,
            Some(snapshot) => {
                &&& r is None <==> forall|i: int|
                    0 <= i < old(houses)@.len() ==> old(houses)@[i].id != snapshot.id
                &&& r is None ==> final(houses)@ == old(houses)@
                &&& r is Some ==> r == Some(
                    if snapshot.inside {
                        HouseTransition::Left
                    } else {
                        HouseTransition::Entered
                    },
                )
                &&& r is Some ==> exists|k: int|
                    0 <= k < old(houses)@.len() && old(houses)@[k].id == snapshot.id && (forall|j: int|
                        0 <= j < k ==> old(houses)@[j].id != snapshot.id) && final(houses)@ == old(
                        houses,
                    )@.update(
                        k,
                        HouseOccupancy { id: snapshot.id, occupied_by_player: !snapshot.inside },
                    )
            },
        },
{
    let snapshot = match nearest {
        None => {
            return None;
        },
        Some(s) => s,
    };
    let mut i: usize = 0;
    while i < houses.len()
        invariant
            i <= houses@.len(),
            houses@ == old(houses)@,
            nearest == Some(snapshot),
            forall|j: int| 0 <= j < i ==> old(houses)@[j].id != snapshot.id,
        decreases houses@.len() - i,
    {
        if houses[i].id == snapshot.id {
            houses.set(i, HouseOccupancy { id: snapshot.id, occupied_by_player: !snapshot.inside });
            if snapshot.inside {
                return Some(HouseTransition::Left);
            } else {
                return Some(HouseTransition::Entered);
            }
        }
        i = i + 1;
    }
    None
}

/// The prompt shown near a house: leaving from inside, entering from
/// outside.
pub open spec fn house_prompt_text(inside: bool) -> Seq<char> {
    if inside {
        "可离开屋舍"@
    } else {
        "可推门入内"@
    }
}

/// The herding prompt for the current walk, when the flock or the grass is
/// within reach of the player.
pub open spec fn herding_prompt_text(
    herding: HerdingState,
    flock_in_reach: bool,
    grass_in_reach: bool,
) -> Option<Seq<char>> {
    match herding.phase {
        HerdingPhase::NotStarted | HerdingPhase::Prompted => if herding.task_available {
            Some("可开始放羊"@)
        } else {
            None
        },
        HerdingPhase::FollowingToGrass => if flock_in_reach {
            Some("可引羊去草地"@)
        } else {
            None
        },
        HerdingPhase::GrazingAtPatch => if grass_in_reach {
            Some("可唤羊回圈"@)
        } else {
            None
        },
        HerdingPhase::ReturningToPen => if flock_in_reach {
            Some("可引羊回圈"@)
        } else {
            None
        },
        HerdingPhase::Completed => None,
    }
}

/// The interaction prompt of the village: a house door in reach comes
/// first, then the herding walk, then the nearest actor.
pub fn village_interaction_prompt(
    nearest_actor: Option<VillageActorKind>,
    nearest_house: Option<VillageHouseSnapshot>,
    herding: HerdingState,
    flock_in_reach: bool,
    grass_in_reach: bool,
) -> (r: Option<&'static str>)
    ensures
        match nearest_house {
            Some(house) => r matches Some(t) && t@ == house_prompt_text(house.inside),
            None => match herding_prompt_text(herding, flock_in_reach, grass_in_reach) {
                Some(text) => r matches Some(t) && t@ == text,
                None => match nearest_actor {
                    Some(kind) => r matches Some(t) && t@ == kind.prompt_text(),
                    None => r is None,
                },
            },
        },
{
    match nearest_house {
        Some(house) => {
            if house.inside {
                return Some("可离开屋舍");
            } else {
                return Some("可推门入内");
            }
        },
        None => {},
    }
    let herding_prompt: Option<&'static str> = match herding.phase {
        HerdingPhase::NotStarted | HerdingPhase::Prompted => {
            if herding.task_available {
                Some("可开始放羊")
            } else {
                None
            }
        },
        HerdingPhase::FollowingToGrass => {
            if flock_in_reach {
                Some("可引羊去草地")
            } else {
                None
            }
        },
        HerdingPhase::GrazingAtPatch => {
            if grass_in_reach {
                Some("可唤羊回圈")
            } else {
                None
            }
        },
        HerdingPhase::ReturningToPen => {
            if flock_in_reach {
                Some("可引羊回圈")
            } else {
                None
            }
        },
        HerdingPhase::Completed => None,
    };
    match herding_prompt {
        Some(text) => Some(text),
        None => match nearest_actor {
            Some(kind) => Some(kind.prompt()),
            None => None,
        },
    }
}


/// The first house carrying the identifier.
pub open spec fn first_house_index(houses: Seq<HouseOccupancy>, id: u64) -> int {
    choose|k: int| 0 <= k < houses.len() && houses[k].id == id && forall|j: int| 0 <= j < k ==> houses[j].id != id
}

/// A house carries the identifier.
pub open spec fn has_house(houses: Seq<HouseOccupancy>, id: u64) -> bool {
    exists|k: int| 0 <= k < houses.len() && houses[k].id == id
}

/// What pressing the interaction key did in the village.
#[derive(Debug, Clone, Copy, PartialEq, Eq, Structural)]
pub enum VillageInteraction {
    /// A house door was used.
    Door(HouseTransition),
    /// The herding walk moved on.
    Herding(HerdingInteraction),
    /// The nearest villager or animal was attended to.
    Attend(VillageActorKind),
    /// Nothing was in reach.
    Nothing,
}

/// Pressing the interaction key: a house door in reach is used first; else,
/// when the flock is about, the herding walk moves on if it can; else the
/// nearest actor in reach is attended to.
pub fn press_village_interaction(
    houses: &mut Vec<HouseOccupancy>,
    nearest_house: Option<VillageHouseSnapshot>,
    herding: &mut HerdingState,
    flock_present: bool,
    near_flock: bool,
    nearest_actor: Option<VillageActorKind>,
) -> (r: VillageInteraction)
    ensures
        match nearest_house {
            Some(house) => has_house(old(houses)@, house.id),
            None => false,
        } ==> {
            let house = nearest_house.unwrap();
            &&& r == VillageInteraction::Door(
                if house.inside {
                    HouseTransition::Left
                } else {
                    HouseTransition::Entered
                },
            )
            &&& final(houses)@ == old(houses)@.update(
                first_house_index(old(houses)@, house.id),
                HouseOccupancy { id: house.id, occupied_by_player: !house.inside },
            )
            &&& *final(herding) == *old(herding)
        },
        !match nearest_house {
            Some(house) => has_house(old(houses)@, house.id),
            None => false,
        } ==> {
            &&& final(houses)@ == old(houses)@
            &&& (flock_present && herding_interaction_spec(*old(herding), near_flock).1 is Some) ==> r
                == VillageInteraction::Herding(herding_interaction_spec(*old(herding), near_flock).1.unwrap())
                && *final(herding) == herding_interaction_spec(*old(herding), near_flock).0
            &&& !(flock_present && herding_interaction_spec(*old(herding), near_flock).1 is Some) ==> *final(herding) == *old(herding) && r == match nearest_actor {
                Some(kind) => VillageInteraction::Attend(kind),
                None => VillageInteraction::Nothing,
            }
        },
        !near_flock && old(herding).phase != HerdingPhase::NotStarted && old(herding).phase
            != HerdingPhase::Prompted ==> *final(herding) == *old(herding) && !(r is Herding),
{
    let door = use_house_door(houses, nearest_house);
    if let Some(transition) = door {
        proof {
            let house = nearest_house.unwrap();
            let k = choose|k: int|
                0 <= k < old(houses)@.len() && old(houses)@[k].id == house.id && (forall|j: int|
                    0 <= j < k ==> old(houses)@[j].id != house.id) && houses@ == old(houses)@.update(
                    k,
                    HouseOccupancy { id: house.id, occupied_by_player: !house.inside },
                );
            let f = first_house_index(old(houses)@, house.id);
            assert(0 <= f < old(houses)@.len() && old(houses)@[f].id == house.id);
            if f < k {
            } else if k < f {
            }
            assert(f == k);
        }
        return VillageInteraction::Door(transition);
    }
    if flock_present {
        let ghost before = *herding;
        if let Some(step) = interact_with_flock(herding, near_flock) {
            return VillageInteraction::Herding(step);
        }
        assert(*herding == before);
    }
    match nearest_actor {
        Some(kind) => VillageInteraction::Attend(kind),
        None => VillageInteraction::Nothing,
    }
}

/// The village parts whose look follows the time of day and the weather.
#[derive(Debug, Clone, Copy, PartialEq, Eq, Hash, Structural)]
pub enum VillageVisualPartKind {
    WarmWindow,
    WarmLantern,
    SmokeWisp,
    WetGround,
    ShoreWater,
    ShoreFoam,
    PathStone,
}

/// The visual kind of a named village part, if its look changes.
pub open spec fn part_kind_of(name: Seq<char>) -> Option<VillageVisualPartKind> {
    if name == "HouseWindowWarmLeft"@ || name == "HouseWindowWarmRight"@ {
        Some(VillageVisualPartKind::WarmWindow)
    } else if name == "HouseInteriorLantern"@ || name == "MarketHangingScale"@ {
        Some(VillageVisualPartKind::WarmLantern)
    } else if name == "HouseSmokeWisp"@ {
        Some(VillageVisualPartKind::SmokeWisp)
    } else if name == "WellWetGround"@ || name == "ShoreWetSand"@ {
        Some(VillageVisualPartKind::WetGround)
    } else if name == "ShoreWater"@ || name == "WellWater"@ {
        Some(VillageVisualPartKind::ShoreWater)
    } else if name == "ShoreFoamLineA"@ || name == "ShoreFoamLineB"@ {
        Some(VillageVisualPartKind::ShoreFoam)
    } else if name == "PathStone"@ || name == "PathDustPatch"@ {
        Some(VillageVisualPartKind::PathStone)
    } else {
        None
    }
}

/// Whether the name reads exactly as the text.
fn name_is(name: &String, text: &str) -> (r: bool)
    ensures
        r == (name@ == text@),
{
    *name == String::from_str(text)
}

/// The visual kind of a named village part, if its look changes.
pub fn village_part_kind(part_name: &str) -> (r: Option<VillageVisualPartKind>)
    ensures
        r == part_kind_of(part_name@),
{
    let name = part_name.to_owned();
    if name_is(&name, "HouseWindowWarmLeft") || name_is(&name, "HouseWindowWarmRight") {
        Some(VillageVisualPartKind::WarmWindow)
    } else if name_is(&name, "HouseInteriorLantern") || name_is(&name, "MarketHangingScale") {
        Some(VillageVisualPartKind::WarmLantern)
    } else if name_is(&name, "HouseSmokeWisp") {
        Some(VillageVisualPartKind::SmokeWisp)
    } else if name_is(&name, "WellWetGround") || name_is(&name, "ShoreWetSand") {
        Some(VillageVisualPartKind::WetGround)
    } else if name_is(&name, "ShoreWater") || name_is(&name, "WellWater") {
        Some(VillageVisualPartKind::ShoreWater)
    } else if name_is(&name, "ShoreFoamLineA") || name_is(&name, "ShoreFoamLineB") {
        Some(VillageVisualPartKind::ShoreFoam)
    } else if name_is(&name, "PathStone") || name_is(&name, "PathDustPatch") {
        Some(VillageVisualPartKind::PathStone)
    } else {
        None
    }
}

} // verus!
