//! HUD wording and HUD state: control hints, names shown for biomes,
//! omens, places and guidance, the herding and gate hints, the return-path
//! line, and how keys switch the HUD's panels.

use vstd::prelude::*;

use crate::places::PlaceKind;
use crate::regions::{RegionGraphState, RegionMilestoneKind};
use crate::signs::{OmenGuidancePhase, OmenKind};
use crate::village::{HerdingPhase, HerdingState};
use crate::world::BiomeKind;

verus! {

/// How a session runs: free exploration, the automatic presentation tour,
/// or the material gallery.
#[derive(Debug, Clone, Copy, PartialEq, Eq, Structural)]
pub enum SessionMode {
    Exploration,
    Presentation,
    MaterialGallery,
}

/// Which HUD is shown.
#[derive(Debug, Clone, Copy, PartialEq, Eq, Structural)]
pub enum HudMode {
    Formal,
    Development,
}

impl HudMode {
    /// The name of the HUD.
    pub open spec fn label_text(self) -> Seq<char> {
        match self {
            HudMode::Formal => "正式 HUD"@,
            HudMode::Development => "开发 HUD"@,
        }
    }

    /// The name of the HUD.
    pub fn label(self) -> (r: &'static str)
        ensures
            r@ == self.label_text(),
    {
        match self {
            HudMode::Formal => "正式 HUD",
            HudMode::Development => "开发 HUD",
        }
    }

    /// The other HUD.
    pub fn toggled(self) -> (r: HudMode)
        ensures
            r != self,
    {
        match self {
            HudMode::Formal => HudMode::Development,
            HudMode::Development => HudMode::Formal,
        }
    }
}

/// Which HUD panels are open.
#[derive(Debug, Clone, Copy, PartialEq, Eq, Structural)]
pub struct UiModeState {
    pub hud_mode: HudMode,
    pub notebook_open: bool,
    pub compass_open: bool,
    pub return_paths_open: bool,
}

impl Default for UiModeState {
    /// The formal HUD with the compass open and everything else closed.
    fn default() -> (r: Self)
        ensures
            r == (UiModeState {
                hud_mode: HudMode::Formal,
                notebook_open: false,
                compass_open: true,
                return_paths_open: false,
            }),
    {
        UiModeState { hud_mode: HudMode::Formal, notebook_open: false, compass_open: true, return_paths_open: false }
    }
}

/// The HUD keys pressed this frame.
#[derive(Debug, Clone, Copy, PartialEq, Eq, Structural)]
pub struct UiModeKeys {
    /// F3.
    pub toggle_hud: bool,
    /// M.
    pub toggle_compass: bool,
    /// R.
    pub toggle_return_paths: bool,
    /// N.
    pub toggle_notebook: bool,
}

impl UiModeState {
    /// Applies the keys of a frame: F3 switches the HUD in every session;
    /// M, R and N toggle the compass, the return paths and the notebook
    /// only while exploring. Returns whether the notebook was just opened,
    /// when every entry becomes read.
    pub fn apply_keys(&mut self, session_mode: SessionMode, keys: UiModeKeys) -> (opened_notebook: bool)
        ensures
            final(self).hud_mode == (if keys.toggle_hud {
                old(self).hud_mode.toggled_spec()
            } else {
                old(self).hud_mode
            }),
            session_mode != SessionMode::Exploration ==> {
                &&& final(self).compass_open == old(self).compass_open
                &&& final(self).return_paths_open == old(self).return_paths_open
                &&& final(self).notebook_open == old(self).notebook_open
                &&& !opened_notebook
            },
            session_mode == SessionMode::Exploration ==> {
                &&& final(self).compass_open == (old(self).compass_open != keys.toggle_compass)
                &&& final(self).return_paths_open == (old(self).return_paths_open != keys.toggle_return_paths)
                &&& final(self).notebook_open == (old(self).notebook_open != keys.toggle_notebook)
                &&& opened_notebook == (keys.toggle_notebook && final(self).notebook_open)
            },
    {
        if keys.toggle_hud {
            self.hud_mode = self.hud_mode.toggled();
        }
        match session_mode {
            SessionMode::Exploration => {},
            _ => {
                return false;
            },
        }
        if keys.toggle_compass {
            self.compass_open = !self.compass_open;
        }
        if keys.toggle_return_paths {
            self.return_paths_open = !self.return_paths_open;
        }
        if keys.toggle_notebook {
            self.notebook_open = !self.notebook_open;
            return self.notebook_open;
        }
        false
    }
}

impl HudMode {
    /// The other HUD.
    pub open spec fn toggled_spec(self) -> HudMode {
        match self {
            HudMode::Formal => HudMode::Development,
            HudMode::Development => HudMode::Formal,
        }
    }
}

/// The control line of a session.
pub open spec fn control_hint_text(session_mode: SessionMode) -> Seq<char> {
    match session_mode {
        SessionMode::Exploration => "WASD 移动  Shift 疾走  Space 跳跃  V 视角  Esc 暂停"@,
        SessionMode::Presentation => "自动巡游展示场景  Esc 暂停"@,
        SessionMode::MaterialGallery => "材质陈列馆/图鉴  WASD/鼠标 移动  Space/Ctrl 升降  Shift 加速  1-4 光照  [ ] 分类  ,/. 家族  -/= 样本  E/O 导出"@,
    }
}

/// The control line of a session.
pub fn control_hint(session_mode: SessionMode) -> (r: &'static str)
    ensures
        r@ == control_hint_text(session_mode),
{
    match session_mode {
        SessionMode::Exploration => "WASD 移动  Shift 疾走  Space 跳跃  V 视角  Esc 暂停",
        SessionMode::Presentation => "自动巡游展示场景  Esc 暂停",
        SessionMode::MaterialGallery => "材质陈列馆/图鉴  WASD/鼠标 移动  Space/Ctrl 升降  Shift 加速  1-4 光照  [ ] 分类  ,/. 家族  -/= 样本  E/O 导出",
    }
}

/// The name shown for a biome.
pub open spec fn biome_label_text(biome: BiomeKind) -> Seq<char> {
    match biome {
        BiomeKind::Water => "水域"@,
        BiomeKind::Meadow => "草甸"@,
        BiomeKind::Grove => "林地"@,
        BiomeKind::Steppe => "旷野"@,
        BiomeKind::Ridge => "山脊"@,
    }
}

/// The name shown for a biome.
pub fn biome_label(biome: BiomeKind) -> (r: &'static str)
    ensures
        r@ == biome_label_text(biome),
{
    match biome {
        BiomeKind::Water => "水域",
        BiomeKind::Meadow => "草甸",
        BiomeKind::Grove => "林地",
        BiomeKind::Steppe => "旷野",
        BiomeKind::Ridge => "山脊",
    }
}

/// The name shown for an omen, or for no omen.
pub open spec fn omen_label_text(omen: Option<OmenKind>) -> Seq<char> {
    match omen {
        Some(OmenKind::DawnLight) => "曙光"@,
        Some(OmenKind::GroveWhisper) => "林语"@,
        Some(OmenKind::SummitCall) => "山鸣"@,
        Some(OmenKind::StillWater) => "止水"@,
        None => "未感知"@,
    }
}

/// The name shown for an omen, or for no omen.
pub fn omen_label(omen: Option<OmenKind>) -> (r: &'static str)
    ensures
        r@ == omen_label_text(omen),
{
    match omen {
        Some(OmenKind::DawnLight) => "曙光",
        Some(OmenKind::GroveWhisper) => "林语",
        Some(OmenKind::SummitCall) => "山鸣",
        Some(OmenKind::StillWater) => "止水",
        None => "未感知",
    }
}

/// The name shown for a place kind, or for an unnamed place.
pub fn place_label(place: Option<PlaceKind>) -> (r: &'static str)
    ensures
        r@ == match place {
            Some(kind) => kind.label_text(),
            None => "未名之地"@,
        },
{
    match place {
        Some(kind) => kind.label(),
        None => "未名之地",
    }
}

/// The line shown for a guidance phase.
pub open spec fn guidance_phase_label_text(phase: OmenGuidancePhase) -> Seq<char> {
    match phase {
        OmenGuidancePhase::Dormant => "风声尚远"@,
        OmenGuidancePhase::Far => "远处有微光"@,
        OmenGuidancePhase::DrawingNear => "征兆渐近"@,
        OmenGuidancePhase::Arrived => "此地正安静等待"@,
        OmenGuidancePhase::Responding => "世界正在回应"@,
    }
}

/// The line shown for a guidance phase.
pub fn guidance_phase_label(phase: OmenGuidancePhase) -> (r: &'static str)
    ensures
        r@ == guidance_phase_label_text(phase),
{
    match phase {
        OmenGuidancePhase::Dormant => "风声尚远",
        OmenGuidancePhase::Far => "远处有微光",
        OmenGuidancePhase::DrawingNear => "征兆渐近",
        OmenGuidancePhase::Arrived => "此地正安静等待",
        OmenGuidancePhase::Responding => "世界正在回应",
    }
}

/// The omen line of the formal HUD: the omen, then how guidance stands,
/// then either the responding place's echo or the target and its distance.
/// `distance_text` is the target's distance as shown (such as " 12m"),
/// absent when there is no target distance.
pub open spec fn formal_omen_text(
    omen: Option<OmenKind>,
    phase: OmenGuidancePhase,
    target_kind: Option<PlaceKind>,
    distance_text: Option<Seq<char>>,
) -> Seq<char> {
    let place = match target_kind {
        Some(kind) => kind.label_text(),
        None => "未名之地"@,
    };
    let tail = if phase == OmenGuidancePhase::Responding {
        "，"@ + place + "有了回声"@
    } else {
        match distance_text {
            None => Seq::<char>::empty(),
            Some(distance) => "，"@ + place + distance,
        }
    };
    omen_label_text(omen) + "："@ + guidance_phase_label_text(phase) + tail
}

/// The omen line of the formal HUD.
pub fn formal_omen_hint(
    omen: Option<OmenKind>,
    phase: OmenGuidancePhase,
    target_kind: Option<PlaceKind>,
    distance_text: Option<&str>,
) -> (r: String)
    ensures
        r@ == formal_omen_text(
            omen,
            phase,
            target_kind,
            match distance_text {
                Some(text) => Some(text@),
                None => None,
            },
        ),
{
    let place = place_label(target_kind);
    let line = String::from_str(omen_label(omen)).concat("：").concat(guidance_phase_label(phase));
    let responding = match phase {
        OmenGuidancePhase::Responding => true,
        _ => false,
    };
    if responding {
        line.concat("，").concat(place).concat("有了回声")
    } else {
        match distance_text {
            None => line,
            Some(distance) => line.concat("，").concat(place).concat(distance),
        }
    }
}

/// The compass direction of an octant, clockwise from north.
pub open spec fn octant_label_text(octant: nat) -> Seq<char> {
    let o = octant % 8;
    if o == 0 {
        "北"@
    } else if o == 1 {
        "东北"@
    } else if o == 2 {
        "东"@
    } else if o == 3 {
        "东南"@
    } else if o == 4 {
        "南"@
    } else if o == 5 {
        "西南"@
    } else if o == 6 {
        "西"@
    } else {
        "西北"@
    }
}

/// The compass direction of an octant, clockwise from north; octants wrap
/// around every eight.
pub fn octant_label(octant: usize) -> (r: &'static str)
    ensures
        r@ == octant_label_text(octant as nat),
{
    let o = octant % 8;
    if o == 0 {
        "北"
    } else if o == 1 {
        "东北"
    } else if o == 2 {
        "东"
    } else if o == 3 {
        "东南"
    } else if o == 4 {
        "南"
    } else if o == 5 {
        "西南"
    } else if o == 6 {
        "西"
    } else {
        "西北"
    }
}

/// The herding line of the HUD, if the flock has something to say.
pub open spec fn herding_hint_text(herding: HerdingState) -> Option<Seq<char>> {
    match herding.phase {
        HerdingPhase::Prompted => if herding.task_available {
            Some("羊群看向草地  F"@)
        } else {
            None
        },
        HerdingPhase::FollowingToGrass => Some("羊群跟着你的步子"@),
        HerdingPhase::GrazingAtPatch => Some("羊群正在吃草，风慢下来"@),
        HerdingPhase::ReturningToPen => Some("羊群记得回圈的路"@),
        HerdingPhase::Completed => if herding.first_task_completed {
            Some("羊群已经安顿，村外的风更清楚"@)
        } else {
            None
        },
        HerdingPhase::NotStarted => None,
    }
}

/// The herding line of the HUD, if the flock has something to say.
pub fn herding_status_hint(herding: &HerdingState) -> (r: Option<String>)
    ensures
        match herding_hint_text(*herding) {
            Some(text) => r matches Some(s) && s@ == text,
            None => r is None,
        },
{
    match herding.phase {
        HerdingPhase::Prompted => {
            if herding.task_available {
                Some(String::from_str("羊群看向草地  F"))
            } else {
                None
            }
        },
        HerdingPhase::FollowingToGrass => Some(String::from_str("羊群跟着你的步子")),
        HerdingPhase::GrazingAtPatch => Some(String::from_str("羊群正在吃草，风慢下来")),
        HerdingPhase::ReturningToPen => Some(String::from_str("羊群记得回圈的路")),
        HerdingPhase::Completed => {
            if herding.first_task_completed {
                Some(String::from_str("羊群已经安顿，村外的风更清楚"))
            } else {
                None
            }
        },
        HerdingPhase::NotStarted => None,
    }
}

/// The boundary line of the HUD: a crossing in progress; else the next
/// milestone of the far bank once its outpost is known; else the next
/// milestone along the road; else what the nearest gate feels like.
pub open spec fn gate_hint_text(regions: RegionGraphState) -> Seq<char> {
    let outpost_hint = match regions.outpost {
        Some(outpost) => if outpost.discovered {
            regions.milestones.next_pending(regions.current_region)
        } else {
            None
        },
        None => None,
    };
    match regions.crossing {
        Some(crossing) => "正在穿过"@ + crossing.gate_kind.label_text(),
        None => match outpost_hint {
            Some(kind) => kind.hint_text(),
            None => if regions.milestones.town_edge.discovered && !regions.milestones.loss_crossroad.discovered {
                RegionMilestoneKind::LossCrossroad.hint_text()
            } else if regions.milestones.loss_crossroad.discovered && !regions.milestones.desert_road.discovered {
                RegionMilestoneKind::DesertRoad.hint_text()
            } else {
                match regions.nearest_gate {
                    Some(gate) => if gate.open {
                        "雾河让出浅处  G"@
                    } else {
                        "雾里有旧水声"@
                    },
                    None => Seq::<char>::empty(),
                }
            },
        },
    }
}

/// The boundary line of the HUD.
pub fn gate_status_hint(regions: &RegionGraphState) -> (r: String)
    ensures
        r@ == gate_hint_text(*regions),
{
    if let Some(crossing) = &regions.crossing {
        return String::from_str("正在穿过").concat(crossing.gate_kind.label());
    }
    let outpost_hint = match &regions.outpost {
        Some(outpost) => regions.milestones.next_hint(regions.current_region, outpost.discovered),
        None => None,
    };
    if let Some(hint) = outpost_hint {
        return String::from_str(hint);
    }
    if regions.milestones.town_edge.discovered && !regions.milestones.loss_crossroad.discovered {
        return String::from_str(RegionMilestoneKind::LossCrossroad.hint());
    }
    if regions.milestones.loss_crossroad.discovered && !regions.milestones.desert_road.discovered {
        return String::from_str(RegionMilestoneKind::DesertRoad.hint());
    }
    match &regions.nearest_gate {
        Some(gate) => {
            if gate.open {
                String::from_str("雾河让出浅处  G")
            } else {
                String::from_str("雾里有旧水声")
            }
        },
        None => String::new(),
    }
}

/// Drops each entry equal to the one before it.
pub open spec fn dedup_adjacent(items: Seq<Seq<char>>) -> Seq<Seq<char>>
    decreases items.len(),
{
    if items.len() == 0 {
        items
    } else {
        let before = dedup_adjacent(items.drop_last());
        if before.len() > 0 && before.last() == items.last() {
            before
        } else {
            before.push(items.last())
        }
    }
}

/// The parts joined with a separator between each two.
pub open spec fn joined(parts: Seq<Seq<char>>, separator: Seq<char>) -> Seq<char>
    decreases parts.len(),
{
    if parts.len() == 0 {
        Seq::<char>::empty()
    } else if parts.len() == 1 {
        parts[0]
    } else {
        joined(parts.drop_last(), separator) + separator + parts.last()
    }
}

/// The places a return path may lead to: the three most recently recorded
/// places, newest first, without repeating a place twice in a row.
pub open spec fn recent_places(place_titles: Seq<Seq<char>>) -> Seq<Seq<char>> {
    dedup_adjacent(place_titles.take(if place_titles.len() < 3 { place_titles.len() as int } else { 3 }))
}

/// The return-path line: nothing while the notebook is open; otherwise the
/// closed line with the newest place, or the open list of recent places.
/// `place_titles` lists the titles of the recorded places, newest first,
/// and is absent when there is no notebook.
pub open spec fn return_path_text(place_titles: Option<Seq<Seq<char>>>, ui_mode: UiModeState) -> Seq<char> {
    if ui_mode.notebook_open {
        Seq::<char>::empty()
    } else {
        match place_titles {
            None => "归路  R"@,
            Some(titles) => {
                let places = recent_places(titles);
                if !ui_mode.return_paths_open {
                    if places.len() == 0 {
                        "归路  R"@
                    } else {
                        "归路  R  "@ + places[0]
                    }
                } else if places.len() == 0 {
                    "归路仍在记忆之外"@
                } else {
                    "熟悉的归路："@ + joined(places, " / "@)
                }
            },
        }
    }
}

/// The views of the listed titles.
pub open spec fn title_views(titles: Seq<String>) -> Seq<Seq<char>> {
    titles.map_values(|t: String| t@)
}

/// The return-path line of the HUD.
pub fn return_path_hint(place_titles: Option<&Vec<String>>, ui_mode: &UiModeState) -> (r: String)
    ensures
        r@ == return_path_text(
            match place_titles {
                Some(titles) => Some(title_views(titles@)),
                None => None,
            },
            *ui_mode,
        ),
{
    if ui_mode.notebook_open {
        return String::new();
    }
    let titles = match place_titles {
        None => {
            return String::from_str("归路  R");
        },
        Some(titles) => titles,
    };
    let ghost views = title_views(titles@);
    let limit = if titles.len() < 3 {
        titles.len()
    } else {
        3
    };
    let mut kept: Vec<usize> = Vec::new();
    let mut i: usize = 0;
    assert(views.take(0) == Seq::<Seq<char>>::empty());
    while i < limit
        invariant
            limit <= titles@.len(),
            i <= limit,
            views == title_views(titles@),
            forall|k: int| 0 <= k < kept@.len() ==> kept@[k] < i,
            Seq::new(kept@.len(), |k: int| views[kept@[k] as int]) == dedup_adjacent(views.take(i as int)),
        decreases limit - i,
    {
        let ghost before = Seq::new(kept@.len(), |k: int| views[kept@[k] as int]);
        assert(views.take(i + 1).drop_last() == views.take(i as int));
        assert(views.take(i + 1).last() == views[i as int]);
        let repeat = if kept.len() > 0 {
            let last = kept[kept.len() - 1];
            assert(before.last() == views[last as int]);
            titles[last] == titles[i]
        } else {
            false
        };
        if !repeat {
            kept.push(i);
            assert(Seq::new(kept@.len(), |k: int| views[kept@[k] as int]) == before.push(views[i as int]));
        }
        i = i + 1;
    }
    let ghost places = Seq::new(kept@.len(), |k: int| views[kept@[k] as int]);
    assert(places == recent_places(views));
    if !ui_mode.return_paths_open {
        if kept.len() == 0 {
            return String::from_str("归路  R");
        }
        return String::from_str("归路  R  ").concat(titles[kept[0]].as_str());
    }
    if kept.len() == 0 {
        return String::from_str("归路仍在记忆之外");
    }
    let mut line = String::from_str(titles[kept[0]].as_str());
    let mut k: usize = 1;
    assert(places.take(1).drop_last().len() == 0);
    assert(joined(places.take(1), " / "@) == places[0]);
    while k < kept.len()
        invariant
            1 <= k <= kept@.len(),
            places == Seq::new(kept@.len(), |j: int| views[kept@[j] as int]),
            views == title_views(titles@),
            forall|j: int| 0 <= j < kept@.len() ==> kept@[j] < titles@.len(),
            line@ == joined(places.take(k as int), " / "@),
        decreases kept@.len() - k,
    {
        line.append(" / ");
        line.append(titles[kept[k]].as_str());
        assert(places.take(k + 1).drop_last() == places.take(k as int));
        assert(places.take(k + 1).last() == places[k as int]);
        k = k + 1;
    }
    assert(places.take(kept@.len() as int) == places);
    String::from_str("熟悉的归路：").concat(line.as_str())
}


/// The word occurs somewhere in the text.
pub open spec fn mentions_word(text: Seq<char>, word: Seq<char>) -> bool {
    exists|i: int| 0 <= i && i + word.len() <= text.len() && #[trigger] text.subrange(i, i + word.len()) == word
}

/// The text speaks neither of tasks nor of heading somewhere, and asks
/// nothing: no "任务", no "前往", no question mark.
pub open spec fn reads_without_tasks(text: Seq<char>) -> bool {
    &&& !mentions_word(text, "任务"@)
    &&& !mentions_word(text, "前往"@)
    &&& !text.contains('?')
}

/// A text whose characters never pair into either word and hold no
/// question mark reads without tasks.
proof fn lemma_reads_without_tasks(text: Seq<char>)
    requires
        forall|i: int| 0 <= i < text.len() - 1 ==> !(#[trigger] text[i] == '任' && text[i + 1] == '务'),
        forall|i: int| 0 <= i < text.len() - 1 ==> !(#[trigger] text[i] == '前' && text[i + 1] == '往'),
        forall|i: int| 0 <= i < text.len() ==> text[i] != '?',
    ensures
        reads_without_tasks(text),
{
    reveal_strlit("任务");
    reveal_strlit("前往");
    assert forall|i: int| 0 <= i && i + 2 <= text.len() implies #[trigger] text.subrange(i, i + 2) != "任务"@ by {
        assert(text.subrange(i, i + 2)[0] == text[i]);
        assert(text.subrange(i, i + 2)[1] == text[i + 1]);
    }
    assert forall|i: int| 0 <= i && i + 2 <= text.len() implies #[trigger] text.subrange(i, i + 2) != "前往"@ by {
        assert(text.subrange(i, i + 2)[0] == text[i]);
        assert(text.subrange(i, i + 2)[1] == text[i + 1]);
    }
}

/// The herding and boundary lines of the HUD never speak of tasks or of
/// heading somewhere, and never ask: they describe what the flock and the
/// land are doing.
pub proof fn lemma_hud_hints_read_without_tasks(herding: HerdingState, regions: RegionGraphState)
    ensures
        herding_hint_text(herding) matches Some(text) ==> reads_without_tasks(text),
        reads_without_tasks(gate_hint_text(regions)),
{
    reveal_strlit("羊群看向草地  F");
    reveal_strlit("羊群跟着你的步子");
    reveal_strlit("羊群正在吃草，风慢下来");
    reveal_strlit("羊群记得回圈的路");
    reveal_strlit("羊群已经安顿，村外的风更清楚");
    lemma_reads_without_tasks("羊群看向草地  F"@);
    lemma_reads_without_tasks("羊群跟着你的步子"@);
    lemma_reads_without_tasks("羊群正在吃草，风慢下来"@);
    lemma_reads_without_tasks("羊群记得回圈的路"@);
    lemma_reads_without_tasks("羊群已经安顿，村外的风更清楚"@);
    reveal_strlit("正在穿过");
    reveal_strlit("迷雾旧渡口");
    reveal_strlit("山口");
    reveal_strlit("港口");
    lemma_reads_without_tasks("正在穿过"@ + "迷雾旧渡口"@);
    lemma_reads_without_tasks("正在穿过"@ + "山口"@);
    lemma_reads_without_tasks("正在穿过"@ + "港口"@);
    reveal_strlit("前方有摊声和车辙");
    reveal_strlit("路边空箱留下阴影");
    reveal_strlit("干风带来沙的味道");
    lemma_reads_without_tasks("前方有摊声和车辙"@);
    lemma_reads_without_tasks("路边空箱留下阴影"@);
    lemma_reads_without_tasks("干风带来沙的味道"@);
    reveal_strlit("雾河让出浅处  G");
    reveal_strlit("雾里有旧水声");
    lemma_reads_without_tasks("雾河让出浅处  G"@);
    lemma_reads_without_tasks("雾里有旧水声"@);
    lemma_reads_without_tasks(Seq::<char>::empty());
}

} // verus!
