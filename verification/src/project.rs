//! The project record: where the video is, where its frames go, how frames
//! are to be extracted, which targets the operator has marked, and how far
//! the work has come.
//!
//! Nothing here touches a file. A change is made in memory; writing the
//! record out is a step of its own that the caller takes when it wants the
//! change to last.

use vstd::prelude::*;
use vstd::string::StringExecFns;
use crate::frames::{frame_file_name, frame_name};
use crate::video::FrameRate;

verus! {

/// What kind of thing a target is.
#[derive(Clone, Copy, Debug, PartialEq, Eq, Structural)]
pub enum TargetType {
    Photographer,
    Vehicle,
    Pedestrian,
}

/// Something to be masked out, marked by points on a source frame.
#[derive(Clone, Debug, PartialEq, Eq)]
pub struct MaskTarget {
    /// The operator's name for the target; no two targets share one.
    pub id: String,
    pub target_type: TargetType,
    /// Whether the target is meant to be followed across frames.
    pub auto_track: bool,
    /// Pixels of the source video, x then y.
    pub points: Vec<(u32, u32)>,
}

/// A target as the contracts read it.
pub struct MaskTargetView {
    pub id: Seq<char>,
    pub target_type: TargetType,
    pub auto_track: bool,
    pub points: Seq<(u32, u32)>,
}

impl View for MaskTarget {
    type V = MaskTargetView;

    open spec fn view(&self) -> MaskTargetView {
        MaskTargetView {
            id: self.id@,
            target_type: self.target_type,
            auto_track: self.auto_track,
            points: self.points@,
        }
    }
}

/// Rate and size at which frames are extracted; each is open until the
/// operator or a probe of the video settles it.
#[derive(Clone, Copy, Debug, PartialEq, Eq)]
pub struct ExtractionSettings {
    pub fps: Option<FrameRate>,
    /// Width and height.
    pub resolution: Option<(u32, u32)>,
}

/// What the operator has configured.
#[derive(Clone, Debug, PartialEq, Eq)]
pub struct ProjectConfig {
    pub project_name: String,
    pub video_path: String,
    pub output_dir: String,
    pub extraction: ExtractionSettings,
    /// In the order in which the targets were created.
    pub targets: Vec<MaskTarget>,
}

/// A configuration as the contracts read it.
pub struct ProjectConfigView {
    pub project_name: Seq<char>,
    pub video_path: Seq<char>,
    pub output_dir: Seq<char>,
    pub extraction: ExtractionSettings,
    pub targets: Seq<MaskTargetView>,
}

/// The targets of a list, each as the contracts read it.
pub open spec fn target_views(targets: Seq<MaskTarget>) -> Seq<MaskTargetView> {
    Seq::new(targets.len(), |i: int| targets[i]@)
}

impl View for ProjectConfig {
    type V = ProjectConfigView;

    open spec fn view(&self) -> ProjectConfigView {
        ProjectConfigView {
            project_name: self.project_name@,
            video_path: self.video_path@,
            output_dir: self.output_dir@,
            extraction: self.extraction,
            targets: target_views(self.targets@),
        }
    }
}

/// How far the work on a project has come.
#[derive(Clone, Copy, Debug, PartialEq, Eq, Structural)]
pub struct ProjectState {
    pub is_extraction_completed: bool,
    pub extracted_frame_count: u32,
}

impl ProjectState {
    /// Frames are counted only for an extraction that is complete.
    pub open spec fn well_formed(self) -> bool {
        self.extracted_frame_count > 0 ==> self.is_extraction_completed
    }
}

impl Default for ProjectState {
    fn default() -> (r: ProjectState)
        ensures
            r == (ProjectState { is_extraction_completed: false, extracted_frame_count: 0 }),
    {
        ProjectState { is_extraction_completed: false, extracted_frame_count: 0 }
    }
}

/// A project: its configuration and its state.
#[derive(Clone, Debug, PartialEq, Eq)]
pub struct Project {
    pub config: ProjectConfig,
    pub state: ProjectState,
}

/// A project as the contracts read it.
pub struct ProjectView {
    pub config: ProjectConfigView,
    pub state: ProjectState,
}

impl View for Project {
    type V = ProjectView;

    open spec fn view(&self) -> ProjectView {
        ProjectView { config: self.config@, state: self.state }
    }
}

/// No two targets of the list share an id.
pub open spec fn distinct_ids(targets: Seq<MaskTargetView>) -> bool {
    forall|i: int, j: int| 0 <= i < j < targets.len() ==> (#[trigger] targets[i]).id != (#[trigger] targets[j]).id
}

/// The place of the first target from `start` on that has the id, or the
/// length of the list if there is none.
pub open spec fn find_from(targets: Seq<MaskTargetView>, id: Seq<char>, start: int) -> int
    decreases targets.len() - start,
{
    if start < 0 || start >= targets.len() {
        targets.len() as int
    } else if targets[start].id == id {
        start
    } else {
        find_from(targets, id, start + 1)
    }
}

/// The place of the first target that has the id, or the length of the list.
pub open spec fn find(targets: Seq<MaskTargetView>, id: Seq<char>) -> int {
    find_from(targets, id, 0)
}

/// The target that a first click on a new id creates.
pub open spec fn fresh_target(id: Seq<char>, point: (u32, u32)) -> MaskTargetView {
    MaskTargetView { id, target_type: TargetType::Photographer, auto_track: true, points: seq![point] }
}

/// The list after a click for `id` at `point`: the target of that id has the
/// point as its only one, and is new at the end if there was none; every
/// other target is as it was, at its place.
pub open spec fn upsert(targets: Seq<MaskTargetView>, id: Seq<char>, point: (u32, u32)) -> Seq<MaskTargetView> {
    let at = find(targets, id);
    if at < targets.len() {
        targets.update(at, MaskTargetView { points: seq![point], ..targets[at] })
    } else {
        targets.push(fresh_target(id, point))
    }
}

/// The directory under which every project keeps its files.
pub open spec fn workspace_root() -> Seq<char> {
    "workspaces/"@
}

/// Where a project with that output directory keeps its record.
pub open spec fn record_path_of(output_dir: Seq<char>) -> Seq<char> {
    output_dir + "/project.yaml"@
}

/// Where a project with that output directory keeps its frames.
pub open spec fn frames_dir_of(output_dir: Seq<char>) -> Seq<char> {
    output_dir + "/frames"@
}

impl Project {
    /// The targets have distinct ids and the state is well-formed.
    pub open spec fn well_formed(&self) -> bool {
        distinct_ids(self@.config.targets) && self.state.well_formed()
    }

    /// A project that has not been worked on: settings open, no target,
    /// nothing extracted. Its files go under `workspaces/` and its name.
    pub fn new(name: &str, video: String) -> (r: Project)
        ensures
            r@.config.project_name == name@,
            r@.config.video_path == video@,
            r@.config.output_dir == workspace_root() + name@,
            r@.config.extraction == (ExtractionSettings { fps: None, resolution: None }),
            r@.config.targets == Seq::<MaskTargetView>::empty(),
            r@.state == (ProjectState { is_extraction_completed: false, extracted_frame_count: 0 }),
            r.well_formed(),
    {
        let mut output_dir: String = "workspaces/".to_owned();
        output_dir.append(name);
        Project {
            config: ProjectConfig {
                project_name: name.to_owned(),
                video_path: video,
                output_dir,
                extraction: ExtractionSettings { fps: None, resolution: None },
                targets: Vec::new(),
            },
            state: ProjectState::default(),
        }
    }

    /// The file that holds the project's record.
    pub fn record_path(&self) -> (r: String)
        ensures
            r@ == record_path_of(self@.config.output_dir),
    {
        let mut path: String = self.config.output_dir.clone();
        path.append("/project.yaml");
        path
    }

    /// The directory that holds the project's frames.
    pub fn frames_dir(&self) -> (r: String)
        ensures
            r@ == frames_dir_of(self@.config.output_dir),
    {
        let mut path: String = self.config.output_dir.clone();
        path.append("/frames");
        path
    }

    /// The file of the frame with that number; frames are numbered from 1.
    pub fn frame_path(&self, index: u32) -> (r: String)
        ensures
            r@ == frames_dir_of(self@.config.output_dir) + "/"@ + frame_name(index),
    {
        let mut path: String = self.frames_dir();
        path.append("/");
        let name: String = frame_file_name(index);
        path.append(name.as_str());
        path
    }

    /// Records a click for a target: the target of that id gets the point as
    /// its only one, whatever points it had; if there is none, one is created
    /// at the end of the list, a photographer that is to be tracked. Only the
    /// list of targets changes, and only in memory.
    pub fn update_target_point(&mut self, target_id: &str, x: u32, y: u32)
        ensures
            final(self)@.config.targets == upsert(old(self)@.config.targets, target_id@, (x, y)),
            final(self)@.config.project_name == old(self)@.config.project_name,
            final(self)@.config.video_path == old(self)@.config.video_path,
            final(self)@.config.output_dir == old(self)@.config.output_dir,
            final(self)@.config.extraction == old(self)@.config.extraction,
            final(self)@.state == old(self)@.state,
            old(self).well_formed() ==> final(self).well_formed(),
    {
        let wanted: String = target_id.to_owned();
        let ghost before = self@.config.targets;
        let count: usize = self.config.targets.len();
        let mut i: usize = 0;
        while i < count
            invariant
                *self == *old(self),
                before == old(self)@.config.targets,
                count == self.config.targets@.len(),
                wanted@ == target_id@,
                i <= count,
                find(before, target_id@) == find_from(before, target_id@, i as int),
            decreases count - i,
        {
            if self.config.targets[i].id == wanted {
                let kept: &MaskTarget = &self.config.targets[i];
                let mut points: Vec<(u32, u32)> = Vec::new();
                points.push((x, y));
                let updated = MaskTarget {
                    id: kept.id.clone(),
                    target_type: kept.target_type,
                    auto_track: kept.auto_track,
                    points,
                };
                self.config.targets.set(i, updated);
                assert(self@.config.targets =~= upsert(before, target_id@, (x, y)));
                proof {
                    law_upsert_keeps_ids_distinct(before, target_id@, (x, y));
                }
                return;
            }
            i = i + 1;
        }
        let mut points: Vec<(u32, u32)> = Vec::new();
        points.push((x, y));
        let created = MaskTarget { id: wanted, target_type: TargetType::Photographer, auto_track: true, points };
        self.config.targets.push(created);
        proof {
            law_upsert_keeps_ids_distinct(before, target_id@, (x, y));
        }
    }
}

/// What `find` finds: a place in the list or its length; the target there
/// has the id; no target before it has.
pub proof fn lemma_find(targets: Seq<MaskTargetView>, id: Seq<char>, start: int)
    requires
        0 <= start <= targets.len(),
    ensures
        start <= find_from(targets, id, start) <= targets.len(),
        find_from(targets, id, start) < targets.len() ==> targets[find_from(targets, id, start)].id == id,
        forall|k: int| start <= k < find_from(targets, id, start) ==> (#[trigger] targets[k]).id != id,
    decreases targets.len() - start,
{
    if start < targets.len() && targets[start].id != id {
        lemma_find(targets, id, start + 1);
    }
}

/// Where the first target with the id is, if one is known to be first.
pub proof fn lemma_find_is(targets: Seq<MaskTargetView>, id: Seq<char>, at: int)
    requires
        0 <= at <= targets.len(),
        at < targets.len() ==> targets[at].id == id,
        forall|k: int| 0 <= k < at ==> (#[trigger] targets[k]).id != id,
    ensures
        find(targets, id) == at,
{
    lemma_find(targets, id, 0);
}

/// A click leaves every id where it was, adds at most one, and never makes
/// two targets share an id.
pub proof fn law_upsert_keeps_ids_distinct(targets: Seq<MaskTargetView>, id: Seq<char>, point: (u32, u32))
    ensures
        forall|k: int| 0 <= k < targets.len() ==> (#[trigger] upsert(targets, id, point)[k]).id == targets[k].id,
        targets.len() <= upsert(targets, id, point).len() <= targets.len() + 1,
        distinct_ids(targets) ==> distinct_ids(upsert(targets, id, point)),
{
    lemma_find(targets, id, 0);
}

/// Two clicks for one id, one after the other, leave what the second alone
/// would have left: there is exactly one target of that id, and its only
/// point is the later one.
pub proof fn law_same_id_twice(targets: Seq<MaskTargetView>, id: Seq<char>, first: (u32, u32), second: (u32, u32))
    requires
        distinct_ids(targets),
    ensures
        ({
            let once = upsert(targets, id, first);
            let twice = upsert(once, id, second);
            let at = find(twice, id);
            &&& twice.len() == once.len()
            &&& 0 <= at < twice.len()
            &&& twice[at].id == id
            &&& twice[at].points == seq![second]
            &&& forall|k: int| 0 <= k < twice.len() && (#[trigger] twice[k]).id == id ==> k == at
            &&& forall|k: int| 0 <= k < twice.len() && k != at ==> #[trigger] twice[k] == once[k]
            &&& twice == upsert(targets, id, second)
        }),
{
    let once = upsert(targets, id, first);
    let twice = upsert(once, id, second);
    lemma_find(targets, id, 0);
    law_upsert_keeps_ids_distinct(targets, id, first);
    let place = find(targets, id);
    lemma_find_is(once, id, place);
    lemma_find(once, id, 0);
    law_upsert_keeps_ids_distinct(once, id, second);
    lemma_find_is(twice, id, place);
}

/// Clicks for two different ids leave a target for each, at different
/// places, each with its own point. Targets that were there keep their
/// places, and where both ids are new the first one clicked comes first.
pub proof fn law_two_ids(
    targets: Seq<MaskTargetView>,
    first_id: Seq<char>,
    first: (u32, u32),
    second_id: Seq<char>,
    second: (u32, u32),
)
    requires
        distinct_ids(targets),
        first_id != second_id,
    ensures
        ({
            let both = upsert(upsert(targets, first_id, first), second_id, second);
            let a = find(both, first_id);
            let b = find(both, second_id);
            &&& 0 <= a < both.len() && 0 <= b < both.len() && a != b
            &&& both[a].id == first_id && both[a].points == seq![first]
            &&& both[b].id == second_id && both[b].points == seq![second]
            &&& distinct_ids(both)
            &&& forall|k: int| 0 <= k < targets.len() ==> (#[trigger] both[k]).id == targets[k].id
            &&& find(targets, first_id) == targets.len() && find(targets, second_id) == targets.len() ==> a
                == targets.len() && b == targets.len() + 1
        }),
{
    let once = upsert(targets, first_id, first);
    let both = upsert(once, second_id, second);
    lemma_find(targets, first_id, 0);
    lemma_find(targets, second_id, 0);
    law_upsert_keeps_ids_distinct(targets, first_id, first);
    let place = find(targets, first_id);
    lemma_find_is(once, first_id, place);
    lemma_find(once, second_id, 0);
    law_upsert_keeps_ids_distinct(once, second_id, second);
    let other = find(once, second_id);
    lemma_find_is(both, second_id, other);
    lemma_find_is(both, first_id, place);
}

} // verus!
