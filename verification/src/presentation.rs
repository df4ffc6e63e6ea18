//! The presentation tour: its fixed visual baseline samples and their
//! order, how scenes follow each other over time, and the journey showcase.

use vstd::prelude::*;

use crate::places::{MeaningfulPlace, MeaningfulPlaces, PlaceKind, first_place_with};
use crate::signs::{OmenKind, place_omen};

verus! {

/// The visual sample a presentation scene stands for.
#[derive(Debug, Clone, Copy, PartialEq, Eq, Structural)]
pub enum PresentationVisualSample {
    Functional,
    VillageDawn,
    DreamAfterSeaWind,
    MistBoundary,
    SandstormPyramid,
    OasisRuins,
    NightSea,
}

impl PresentationVisualSample {
    /// The fixed visual baseline, in presentation order.
    pub const BASELINE: [PresentationVisualSample; 6] = [
        PresentationVisualSample::VillageDawn,
        PresentationVisualSample::DreamAfterSeaWind,
        PresentationVisualSample::MistBoundary,
        PresentationVisualSample::SandstormPyramid,
        PresentationVisualSample::OasisRuins,
        PresentationVisualSample::NightSea,
    ];

    /// The position of a sample in the baseline; functional showcases come
    /// after all of it.
    pub open spec fn order_spec(self) -> nat {
        match self {
            PresentationVisualSample::VillageDawn => 0,
            PresentationVisualSample::DreamAfterSeaWind => 1,
            PresentationVisualSample::MistBoundary => 2,
            PresentationVisualSample::SandstormPyramid => 3,
            PresentationVisualSample::OasisRuins => 4,
            PresentationVisualSample::NightSea => 5,
            PresentationVisualSample::Functional => 6,
        }
    }

    /// The position of a sample in the baseline, or the baseline's length
    /// for a functional showcase.
    pub fn order(self) -> (r: usize)
        ensures
            r == self.order_spec(),
    {
        match self {
            PresentationVisualSample::VillageDawn => 0,
            PresentationVisualSample::DreamAfterSeaWind => 1,
            PresentationVisualSample::MistBoundary => 2,
            PresentationVisualSample::SandstormPyramid => 3,
            PresentationVisualSample::OasisRuins => 4,
            PresentationVisualSample::NightSea => 5,
            PresentationVisualSample::Functional => 6,
        }
    }

    /// Every sample but the functional showcase belongs to the baseline.
    pub fn is_visual_baseline(self) -> (r: bool)
        ensures
            r == (self != PresentationVisualSample::Functional),
    {
        match self {
            PresentationVisualSample::Functional => false,
            _ => true,
        }
    }

    /// The name a sample is logged under.
    pub open spec fn label_text(self) -> Seq<char> {
        match self {
            PresentationVisualSample::Functional => "functional-showcase"@,
            PresentationVisualSample::VillageDawn => "village-dawn"@,
            PresentationVisualSample::DreamAfterSeaWind => "dream-after-sea-wind"@,
            PresentationVisualSample::MistBoundary => "mist-boundary"@,
            PresentationVisualSample::SandstormPyramid => "sandstorm-pyramid"@,
            PresentationVisualSample::OasisRuins => "oasis-ruins"@,
            PresentationVisualSample::NightSea => "night-sea"@,
        }
    }

    /// The name a sample is logged under.
    pub fn label(self) -> (r: &'static str)
        ensures
            r@ == self.label_text(),
    {
        match self {
            PresentationVisualSample::Functional => "functional-showcase",
            PresentationVisualSample::VillageDawn => "village-dawn",
            PresentationVisualSample::DreamAfterSeaWind => "dream-after-sea-wind",
            PresentationVisualSample::MistBoundary => "mist-boundary",
            PresentationVisualSample::SandstormPyramid => "sandstorm-pyramid",
            PresentationVisualSample::OasisRuins => "oasis-ruins",
            PresentationVisualSample::NightSea => "night-sea",
        }
    }
}

/// The baseline sample at a baseline position.
pub open spec fn baseline_sample(index: int) -> PresentationVisualSample {
    if index == 0 {
        PresentationVisualSample::VillageDawn
    } else if index == 1 {
        PresentationVisualSample::DreamAfterSeaWind
    } else if index == 2 {
        PresentationVisualSample::MistBoundary
    } else if index == 3 {
        PresentationVisualSample::SandstormPyramid
    } else if index == 4 {
        PresentationVisualSample::OasisRuins
    } else {
        PresentationVisualSample::NightSea
    }
}

/// The baseline holds six distinct samples, none of them functional, each
/// at the position its order names.
pub proof fn lemma_baseline_is_ordered(index: int)
    requires
        0 <= index < 6,
    ensures
        baseline_sample(index).order_spec() == index,
        baseline_sample(index) != PresentationVisualSample::Functional,
{
}

/// How many baseline samples occur among the scenes' samples.
pub open spec fn baseline_count_spec(samples: Seq<PresentationVisualSample>) -> nat {
    Set::new(|k: int| 0 <= k < 6 && samples.contains(baseline_sample(k))).len()
}

/// Whether a sample occurs among the scenes' samples.
fn samples_contain(samples: &[PresentationVisualSample], sample: PresentationVisualSample) -> (r: bool)
    ensures
        r == samples@.contains(sample),
{
    let mut i: usize = 0;
    while i < samples.len()
        invariant
            i <= samples@.len(),
            forall|k: int| 0 <= k < i ==> samples@[k] != sample,
        decreases samples@.len() - i,
    {
        if samples[i] == sample {
            assert(samples@[i as int] == sample);
            return true;
        }
        i = i + 1;
    }
    false
}

/// How many of the six baseline samples the scenes cover, each counted once.
pub fn visual_baseline_count(samples: &[PresentationVisualSample]) -> (r: usize)
    ensures
        r == baseline_count_spec(samples@),
        r <= 6,
{
    let mut count: usize = 0;
    let mut k: usize = 0;
    let ghost mut covered: Set<int> = Set::empty();
    while k < 6
        invariant
            k <= 6,
            covered == Set::new(|j: int| 0 <= j < k && samples@.contains(baseline_sample(j))),
            covered.finite(),
            count == covered.len(),
            count <= k,
        decreases 6 - k,
    {
        let sample = match k {
            0 => PresentationVisualSample::VillageDawn,
            1 => PresentationVisualSample::DreamAfterSeaWind,
            2 => PresentationVisualSample::MistBoundary,
            3 => PresentationVisualSample::SandstormPyramid,
            4 => PresentationVisualSample::OasisRuins,
            _ => PresentationVisualSample::NightSea,
        };
        assert(sample == baseline_sample(k as int));
        let ghost next = Set::new(|j: int| 0 <= j < k + 1 && samples@.contains(baseline_sample(j)));
        if samples_contain(samples, sample) {
            assert(next == covered.insert(k as int));
            assert(!covered.contains(k as int));
            count = count + 1;
            proof {
                covered = covered.insert(k as int);
            }
        } else {
            assert(next == covered);
        }
        k = k + 1;
    }
    assert(covered == Set::new(|j: int| 0 <= j < 6 && samples@.contains(baseline_sample(j))));
    count
}

/// Whether the scenes cover the whole visual baseline.
pub fn has_full_visual_baseline(samples: &[PresentationVisualSample]) -> (r: bool)
    ensures
        r == (baseline_count_spec(samples@) >= 6),
{
    visual_baseline_count(samples) >= 6
}

/// Scene `a` is shown before scene `b`: by the order of their samples, and
/// among equal samples in the order the scenes were built.
pub open spec fn shown_before(samples: Seq<PresentationVisualSample>, a: int, b: int) -> bool {
    ||| samples[a].order_spec() < samples[b].order_spec()
    ||| samples[a].order_spec() == samples[b].order_spec() && a < b
}

/// The order in which the scenes are presented, as positions into the
/// built list: baseline samples first in baseline order, functional
/// showcases last, scenes with equal samples in build order.
pub fn presentation_order(samples: &[PresentationVisualSample]) -> (r: Vec<usize>)
    ensures
        r@.len() == samples@.len(),
        forall|i: int| 0 <= i < r@.len() ==> r@[i] < samples@.len(),
        forall|i: int, j: int|
            0 <= i < j < r@.len() ==> shown_before(samples@, #[trigger] r@[i] as int, #[trigger] r@[j] as int),
        forall|p: usize| p < samples@.len() ==> #[trigger] r@.contains(p),
{
    let mut order: Vec<usize> = Vec::new();
    let mut rank: usize = 0;
    while rank < 7
        invariant
            rank <= 7,
            forall|i: int| 0 <= i < order@.len() ==> order@[i] < samples@.len(),
            forall|i: int| 0 <= i < order@.len() ==> samples@[order@[i] as int].order_spec() < rank,
            forall|i: int, j: int|
                0 <= i < j < order@.len() ==> shown_before(samples@, #[trigger] order@[i] as int, #[trigger] order@[j] as int),
            forall|q: int|
                0 <= q < samples@.len() && samples@[q].order_spec() < rank ==> order@.contains(q as usize),
            forall|i: int, j: int| 0 <= i < j < order@.len() ==> order@[i] != order@[j],
        decreases 7 - rank,
    {
        let mut p: usize = 0;
        while p < samples.len()
            invariant
                rank < 7,
                p <= samples@.len(),
                forall|i: int| 0 <= i < order@.len() ==> order@[i] < samples@.len(),
                forall|i: int|
                    0 <= i < order@.len() ==> samples@[order@[i] as int].order_spec() < rank || (
                    samples@[order@[i] as int].order_spec() == rank && order@[i] < p),
                forall|i: int, j: int|
                    0 <= i < j < order@.len() ==> shown_before(samples@, #[trigger] order@[i] as int, #[trigger] order@[j] as int),
                forall|q: int|
                    0 <= q < samples@.len() && samples@[q].order_spec() < rank ==> order@.contains(q as usize),
                forall|q: int| 0 <= q < p && samples@[q].order_spec() == rank ==> order@.contains(q as usize),
                forall|i: int, j: int| 0 <= i < j < order@.len() ==> order@[i] != order@[j],
            decreases samples@.len() - p,
        {
            if samples[p].order() == rank {
                let ghost before = order@;
                order.push(p);
                proof {
                    assert forall|i: int, j: int| 0 <= i < j < order@.len() implies shown_before(
                        samples@,
                        #[trigger] order@[i] as int,
                        #[trigger] order@[j] as int,
                    ) by {
                        if j == before.len() {
                            assert(order@[i] == before[i]);
                        } else {
                            assert(order@[i] == before[i]);
                            assert(order@[j] == before[j]);
                        }
                    }
                    assert forall|i: int, j: int| 0 <= i < j < order@.len() implies order@[i] != order@[j] by {
                        if j == before.len() {
                            assert(order@[i] == before[i]);
                        } else {
                            assert(order@[i] == before[i]);
                            assert(order@[j] == before[j]);
                        }
                    }
                    assert forall|q: int|
                        0 <= q < samples@.len() && samples@[q].order_spec() < rank implies order@.contains(q as usize) by {
                        let k = choose|k: int| 0 <= k < before.len() && before[k] == q as usize;
                        assert(order@[k] == q as usize);
                    }
                    assert forall|q: int|
                        0 <= q < p + 1 && samples@[q].order_spec() == rank implies order@.contains(q as usize) by {
                        if q == p {
                            assert(order@[before.len() as int] == p);
                        } else {
                            let k = choose|k: int| 0 <= k < before.len() && before[k] == q as usize;
                            assert(order@[k] == q as usize);
                        }
                    }
                }
            }
            p = p + 1;
        }
        rank = rank + 1;
    }
    let total = samples.len();
    proof {
        assert(samples@.len() == total);
        assert forall|q: usize| q < samples@.len() implies #[trigger] order@.contains(q) by {
            assert(samples@[q as int].order_spec() < 7);
        }
        lemma_distinct_positions_fill(order@, samples@.len());
    }
    order
}

/// A list of distinct positions below `n` that lists every one of them has
/// exactly `n` entries.
proof fn lemma_distinct_positions_fill(order: Seq<usize>, n: nat)
    requires
        forall|i: int| 0 <= i < order.len() ==> order[i] < n,
        forall|i: int, j: int| 0 <= i < j < order.len() ==> order[i] != order[j],
        forall|p: usize| p < n ==> #[trigger] order.contains(p),
        n <= usize::MAX,
    ensures
        order.len() == n,
{
    let ints = order.map_values(|x: usize| x as int);
    assert(ints.no_duplicates()) by {
        assert forall|i: int, j: int| 0 <= i < ints.len() && 0 <= j < ints.len() && i != j implies ints[i]
            != ints[j] by {
            if i < j {
                assert(order[i] != order[j]);
            } else {
                assert(order[j] != order[i]);
            }
        }
    }
    ints.unique_seq_to_set();
    vstd::set_lib::lemma_int_range(0, n as int);
    assert(ints.to_set() == vstd::set_lib::set_int_range(0, n as int)) by {
        assert forall|x: int| #[trigger] ints.to_set().contains(x) <==> vstd::set_lib::set_int_range(
            0,
            n as int,
        ).contains(x) by {
            if ints.to_set().contains(x) {
                let k = choose|k: int| 0 <= k < ints.len() && ints[k] == x;
                assert(order[k] < n);
            }
            if 0 <= x < n {
                let u = x as usize;
                assert(u as int == x);
                assert(order.contains(u));
                let k = choose|k: int| 0 <= k < order.len() && order[k] == u;
                assert(ints[k] == x);
                assert(ints.contains(x));
            }
        }
    }
}

/// The scene shown in a given scene cycle: cycles wrap around the scenes,
/// and an empty tour stays at the first position.
pub open spec fn scene_index_spec(cycle: nat, scene_count: nat) -> nat {
    if scene_count == 0 {
        0
    } else {
        cycle % scene_count
    }
}

/// The scene shown in the `cycle`-th scene slot of the tour (the elapsed
/// time divided by the scene duration, rounded down).
pub fn scene_index_for_cycle(cycle: usize, scene_count: usize) -> (r: usize)
    ensures
        r == scene_index_spec(cycle as nat, scene_count as nat),
        scene_count > 0 ==> r < scene_count,
{
    let count = if scene_count >= 1 {
        scene_count
    } else {
        1
    };
    let wrapped = cycle % count;
    let last = if scene_count >= 1 {
        scene_count - 1
    } else {
        0
    };
    if wrapped <= last {
        wrapped
    } else {
        last
    }
}

/// The tour is periodic: a full round of scene slots later the same scene
/// shows again, and every slot shows one of the scenes.
pub proof fn lemma_scene_cycle_wraps(cycle: nat, scene_count: nat)
    requires
        scene_count > 0,
    ensures
        scene_index_spec(cycle + scene_count, scene_count) == scene_index_spec(cycle, scene_count),
        scene_index_spec(cycle, scene_count) < scene_count,
{
    vstd::arithmetic::div_mod::lemma_mod_add_multiples_vanish(cycle as int, scene_count as int);
}

/// Which scene is showing, and which scene was last set up.
#[derive(Debug, Clone, Copy, PartialEq, Eq, Structural)]
pub struct SceneCursor {
    pub current_scene_index: usize,
    pub activated_scene_index: Option<usize>,
}

impl SceneCursor {
    /// The tour starts on the first scene, with nothing set up yet.
    pub fn new() -> (r: Self)
        ensures
            r.current_scene_index == 0,
            r.activated_scene_index is None,
    {
        SceneCursor { current_scene_index: 0, activated_scene_index: None }
    }

    /// Moves to the scene of a cycle; returns whether that scene must be set
    /// up now, which happens once each time the tour reaches a new scene.
    pub fn enter_cycle(&mut self, cycle: usize, scene_count: usize) -> (activate: bool)
        ensures
            final(self).current_scene_index == scene_index_spec(cycle as nat, scene_count as nat),
            activate == (old(self).activated_scene_index != Some(final(self).current_scene_index)),
            final(self).activated_scene_index == Some(final(self).current_scene_index),
    {
        let index = scene_index_for_cycle(cycle, scene_count);
        self.current_scene_index = index;
        let activate = match self.activated_scene_index {
            Some(active) => active != index,
            None => true,
        };
        self.activated_scene_index = Some(index);
        activate
    }
}

/// The omen a presentation scene expects at a kind of place.
pub fn omen_for_place(kind: PlaceKind) -> (r: OmenKind)
    ensures
        r == place_omen(kind),
{
    match kind {
        PlaceKind::AncientTree => OmenKind::GroveWhisper,
        PlaceKind::SpringEye => OmenKind::StillWater,
        PlaceKind::QuietBay => OmenKind::StillWater,
        PlaceKind::RidgeGate => OmenKind::SummitCall,
        PlaceKind::StoneRing => OmenKind::DawnLight,
    }
}

/// The beats of the journey showcase and of the scripted journeys.
#[derive(Debug, Clone, Copy, PartialEq, Eq, Structural)]
pub enum PresentationJourneyStep {
    Scenic,
    VillageBirth,
    VillageLife,
    Dream,
    DreamEcho,
    Boundary,
    DesertPyramid,
    Ecology,
    ThirdPerson,
    Director,
    Spawn,
    Omen,
    Approach,
    Response,
    Echo,
}

/// The five beats of the first playable journey, in order.
pub open spec fn journey_beats() -> Seq<PresentationJourneyStep> {
    seq![
        PresentationJourneyStep::Spawn,
        PresentationJourneyStep::Omen,
        PresentationJourneyStep::Approach,
        PresentationJourneyStep::Response,
        PresentationJourneyStep::Echo,
    ]
}

/// The place the journey showcase visits: the active place when it is
/// listed, else the first place.
pub open spec fn showcase_place_spec(places: MeaningfulPlaces) -> Option<int> {
    let active = match places.active_place_id {
        Some(id) => first_place_with(places.places@, id),
        None => None,
    };
    match active {
        Some(i) => Some(i),
        None => if places.places@.len() > 0 {
            Some(0)
        } else {
            None
        },
    }
}

/// The journey showcase: the place it visits, and its beats each paired
/// with the omen of that place; none when there is no place.
pub fn journey_showcase(places: &MeaningfulPlaces) -> (r: Option<(&MeaningfulPlace, Vec<(PresentationJourneyStep, OmenKind)>)>)
    ensures
        match showcase_place_spec(*places) {
            None => r is None,
            Some(i) => r matches Some((place, beats)) && place == &places.places@[i] && beats@.len() == 5 && (
            forall|k: int|
                0 <= k < 5 ==> (#[trigger] beats@[k]) == (journey_beats()[k], place_omen(places.places@[i].kind))),
        },
{
    let place = match places.active_place() {
        Some(place) => place,
        None => {
            if places.places.len() == 0 {
                return None;
            }
            &places.places[0]
        },
    };
    let omen = omen_for_place(place.kind);
    let beats = vec![
        (PresentationJourneyStep::Spawn, omen),
        (PresentationJourneyStep::Omen, omen),
        (PresentationJourneyStep::Approach, omen),
        (PresentationJourneyStep::Response, omen),
        (PresentationJourneyStep::Echo, omen),
    ];
    Some((place, beats))
}

} // verus!
