//! The staged pipeline of a project: probe the video for what the settings
//! leave open, extract the frames once, and never extract them twice.
//!
//! The pipeline itself runs no tool and writes no file. It says what is to be
//! done next, is told how that went, and keeps the project's record in step.

use vstd::prelude::*;
use crate::frames::ExtractionRequest;
use crate::project::{ExtractionSettings, Project, ProjectState};
use crate::video::{FrameRate, VideoMetadata};

verus! {

/// Frames per second where neither the operator nor a probe gave a rate.
pub const DEFAULT_FPS: u32 = 30;

/// Width of the frames where none was given.
pub const DEFAULT_WIDTH: u32 = 1920;

/// Height of the frames where none was given.
pub const DEFAULT_HEIGHT: u32 = 1080;

/// Where a project stands.
#[derive(Clone, Copy, Debug, PartialEq, Eq, Structural)]
pub enum Stage {
    /// Frames are not extracted, and rate or size are still open.
    Uninitialized,
    /// Rate and size are settled, frames are not extracted.
    MetadataPending,
    /// Frames are extracted.
    Extracted,
}

/// What a run of the pipeline is waiting for.
#[derive(Clone, Copy, Debug, PartialEq, Eq, Structural)]
pub enum Waiting {
    /// To be started.
    Start,
    /// The result of the probe.
    Probe,
    /// The result of the extraction.
    Extraction,
    /// The record to be written.
    Save,
    /// Nothing: the run is over.
    Nothing,
}

/// What happened outside.
#[derive(Clone, Copy, Debug, PartialEq, Eq, Structural)]
pub enum Event {
    /// The run begins.
    Started,
    /// The probe gave the video's metadata.
    Probed(VideoMetadata),
    /// The probe failed.
    ProbeFailed,
    /// The extractor returned, and so many frames were counted.
    Extracted(u32),
    /// The extractor failed.
    ExtractionFailed,
    /// The extractor did not return in the time it was given.
    ExtractionTimedOut,
    /// The record was written.
    Saved,
    /// The record could not be written.
    SaveFailed,
}

/// Why a run ended without success.
#[derive(Clone, Copy, Debug, PartialEq, Eq, Structural)]
pub enum PipelineError {
    /// The extractor failed.
    ExtractionFailed,
    /// The extractor did not return in time.
    TimedOut,
    /// The extractor returned and left no frame.
    NoFrames,
    /// The record could not be written.
    SaveFailed,
    /// An event came that the run was not waiting for.
    Unexpected,
}

/// What is to be done next.
#[derive(Clone, Copy, Debug, PartialEq, Eq, Structural)]
pub enum Action {
    /// Probe the video.
    Probe,
    /// Extract frames as requested, then count them.
    Extract(ExtractionRequest),
    /// Write the record.
    Save,
    /// Nothing more: the frames are there.
    Finish,
    /// Nothing more: the run has failed.
    Abort(PipelineError),
}

/// What of a run the pipeline decides by and changes.
pub struct Progress {
    pub settings: ExtractionSettings,
    pub state: ProjectState,
    pub waiting: Waiting,
}

/// A run of the pipeline on a project.
#[derive(Debug)]
pub struct Pipeline {
    pub project: Project,
    pub waiting: Waiting,
}

/// Whether rate or size are still open.
pub open spec fn open_settings(settings: ExtractionSettings) -> bool {
    settings.fps is None || settings.resolution is None
}

/// The stage of a project with these settings and this state.
pub open spec fn stage_of(settings: ExtractionSettings, state: ProjectState) -> Stage {
    if state.is_extraction_completed {
        Stage::Extracted
    } else if open_settings(settings) {
        Stage::Uninitialized
    } else {
        Stage::MetadataPending
    }
}

/// The settings after a probe: what was open is filled from the metadata,
/// what was set stays as it was.
pub open spec fn merged(settings: ExtractionSettings, metadata: VideoMetadata) -> ExtractionSettings {
    ExtractionSettings {
        fps: if settings.fps is Some {
            settings.fps
        } else {
            Some(metadata.fps)
        },
        resolution: if settings.resolution is Some {
            settings.resolution
        } else {
            Some((metadata.width, metadata.height))
        },
    }
}

/// What the extractor is asked for under these settings: what is set, and
/// the defaults for what is open.
pub open spec fn request_of(settings: ExtractionSettings) -> ExtractionRequest {
    ExtractionRequest {
        fps: match settings.fps {
            Some(rate) => rate,
            None => FrameRate { num: DEFAULT_FPS, den: 1 },
        },
        width: match settings.resolution {
            Some(size) => size.0,
            None => DEFAULT_WIDTH,
        },
        height: match settings.resolution {
            Some(size) => size.1,
            None => DEFAULT_HEIGHT,
        },
    }
}

/// The state after an extraction that left `frames` frames. Frames that
/// were extracted before are not extracted or counted again, and an
/// extraction that left nothing is none.
pub open spec fn completed(state: ProjectState, frames: u32) -> Result<ProjectState, PipelineError> {
    if state.is_extraction_completed {
        Ok(state)
    } else if frames == 0 {
        Err(PipelineError::NoFrames)
    } else {
        Ok(ProjectState { is_extraction_completed: true, extracted_frame_count: frames })
    }
}

/// The decision on extraction: none where the frames are there.
pub open spec fn decided(progress: Progress) -> (Progress, Action) {
    if progress.state.is_extraction_completed {
        (Progress { waiting: Waiting::Nothing, ..progress }, Action::Finish)
    } else {
        (Progress { waiting: Waiting::Extraction, ..progress }, Action::Extract(request_of(progress.settings)))
    }
}

/// How a run ends on a failure: nothing changes but that the run is over.
pub open spec fn aborted(progress: Progress, error: PipelineError) -> (Progress, Action) {
    (Progress { waiting: Waiting::Nothing, ..progress }, Action::Abort(error))
}

/// One step of a run: what the event makes of the run, and what is to be
/// done next.
///
/// A run that starts probes where rate or size are open, and goes on to the
/// decision on extraction with or without what the probe gave: a failed
/// probe is no failure of the run. Frames are requested only where none are
/// recorded. When the extractor has returned and frames were counted, the
/// count is recorded and the record is to be written. An extraction that
/// failed or did not return in time ends the run and leaves the state as it
/// was.
pub open spec fn next(progress: Progress, event: Event) -> (Progress, Action) {
    match (progress.waiting, event) {
        (Waiting::Start, Event::Started) => if open_settings(progress.settings) {
            (Progress { waiting: Waiting::Probe, ..progress }, Action::Probe)
        } else {
            decided(progress)
        },
        (Waiting::Probe, Event::Probed(metadata)) => decided(
            Progress { settings: merged(progress.settings, metadata), ..progress },
        ),
        (Waiting::Probe, Event::ProbeFailed) => decided(progress),
        (Waiting::Extraction, Event::Extracted(frames)) => match completed(progress.state, frames) {
            Ok(state) => (Progress { state, waiting: Waiting::Save, ..progress }, Action::Save),
            Err(error) => aborted(progress, error),
        },
        (Waiting::Extraction, Event::ExtractionFailed) => aborted(progress, PipelineError::ExtractionFailed),
        (Waiting::Extraction, Event::ExtractionTimedOut) => aborted(progress, PipelineError::TimedOut),
        (Waiting::Save, Event::Saved) => (Progress { waiting: Waiting::Nothing, ..progress }, Action::Finish),
        (Waiting::Save, Event::SaveFailed) => aborted(progress, PipelineError::SaveFailed),
        _ => aborted(progress, PipelineError::Unexpected),
    }
}

impl Project {
    /// Where the project stands.
    pub fn stage(&self) -> (r: Stage)
        ensures
            r == stage_of(self.config.extraction, self.state),
    {
        if self.state.is_extraction_completed {
            Stage::Extracted
        } else if self.needs_probe() {
            Stage::Uninitialized
        } else {
            Stage::MetadataPending
        }
    }

    /// Whether a probe of the video has anything to fill in.
    pub fn needs_probe(&self) -> (r: bool)
        ensures
            r == open_settings(self.config.extraction),
    {
        self.config.extraction.fps.is_none() || self.config.extraction.resolution.is_none()
    }

    /// Takes from the metadata what the settings leave open, and nothing else.
    pub fn merge_metadata(&mut self, metadata: &VideoMetadata)
        ensures
            final(self).config.extraction == merged(old(self).config.extraction, *metadata),
            old(self).config.extraction.fps is Some ==> final(self).config.extraction.fps == old(
                self,
            ).config.extraction.fps,
            old(self).config.extraction.resolution is Some ==> final(self).config.extraction.resolution == old(
                self,
            ).config.extraction.resolution,
            !open_settings(final(self).config.extraction),
            final(self).state == old(self).state,
            final(self)@.config.targets == old(self)@.config.targets,
            final(self)@.config.project_name == old(self)@.config.project_name,
            final(self)@.config.video_path == old(self)@.config.video_path,
            final(self)@.config.output_dir == old(self)@.config.output_dir,
    {
        let fps: Option<FrameRate> = match self.config.extraction.fps {
            Some(rate) => Some(rate),
            None => Some(metadata.fps),
        };
        let resolution: Option<(u32, u32)> = match self.config.extraction.resolution {
            Some(size) => Some(size),
            None => Some((metadata.width, metadata.height)),
        };
        self.config.extraction = ExtractionSettings { fps, resolution };
    }

    /// What the extractor is to be asked for, or `None` where the frames
    /// are there.
    pub fn extraction_request(&self) -> (r: Option<ExtractionRequest>)
        ensures
            self.state.is_extraction_completed ==> r is None,
            !self.state.is_extraction_completed ==> r == Some(request_of(self.config.extraction)),
    {
        if self.state.is_extraction_completed {
            return None;
        }
        let fps: FrameRate = match self.config.extraction.fps {
            Some(rate) => rate,
            None => FrameRate { num: DEFAULT_FPS, den: 1 },
        };
        let (width, height): (u32, u32) = match self.config.extraction.resolution {
            Some(size) => size,
            None => (DEFAULT_WIDTH, DEFAULT_HEIGHT),
        };
        Some(ExtractionRequest { fps, width, height })
    }

    /// Records that the extractor returned and left `frames` frames. Where
    /// frames are already recorded, nothing changes. An extraction that left
    /// no frame is not recorded as complete.
    pub fn complete_extraction(&mut self, frames: u32) -> (r: Result<(), PipelineError>)
        ensures
            match completed(old(self).state, frames) {
                Ok(state) => r is Ok && final(self).state == state,
                Err(error) => r == Err::<(), PipelineError>(error) && final(self).state == old(self).state,
            },
            final(self).config == old(self).config,
            old(self).state.well_formed() ==> final(self).state.well_formed(),
    {
        if self.state.is_extraction_completed {
            return Ok(());
        }
        if frames == 0 {
            return Err(PipelineError::NoFrames);
        }
        self.state = ProjectState { is_extraction_completed: true, extracted_frame_count: frames };
        Ok(())
    }
}

impl Pipeline {
    /// What of the run the pipeline decides by.
    pub open spec fn progress(&self) -> Progress {
        Progress { settings: self.project.config.extraction, state: self.project.state, waiting: self.waiting }
    }

    /// A run on a project, not yet started.
    pub fn new(project: Project) -> (r: Pipeline)
        ensures
            r.project == project,
            r.waiting == Waiting::Start,
    {
        Pipeline { project, waiting: Waiting::Start }
    }

    /// Takes an event and says what is to be done next. Of the project only
    /// settings and state can change.
    pub fn step(&mut self, event: Event) -> (action: Action)
        ensures
            (final(self).progress(), action) == next(old(self).progress(), event),
            final(self).project@.config.targets == old(self).project@.config.targets,
            final(self).project@.config.project_name == old(self).project@.config.project_name,
            final(self).project@.config.video_path == old(self).project@.config.video_path,
            final(self).project@.config.output_dir == old(self).project@.config.output_dir,
            old(self).project.well_formed() ==> final(self).project.well_formed(),
    {
        match (self.waiting, event) {
            (Waiting::Start, Event::Started) => {
                if self.project.needs_probe() {
                    self.waiting = Waiting::Probe;
                    Action::Probe
                } else {
                    self.decide()
                }
            },
            (Waiting::Probe, Event::Probed(metadata)) => {
                self.project.merge_metadata(&metadata);
                self.decide()
            },
            (Waiting::Probe, Event::ProbeFailed) => self.decide(),
            (Waiting::Extraction, Event::Extracted(frames)) => {
                match self.project.complete_extraction(frames) {
                    Ok(_) => {
                        self.waiting = Waiting::Save;
                        Action::Save
                    },
                    Err(error) => {
                        self.waiting = Waiting::Nothing;
                        Action::Abort(error)
                    },
                }
            },
            (Waiting::Extraction, Event::ExtractionFailed) => {
                self.waiting = Waiting::Nothing;
                Action::Abort(PipelineError::ExtractionFailed)
            },
            (Waiting::Extraction, Event::ExtractionTimedOut) => {
                self.waiting = Waiting::Nothing;
                Action::Abort(PipelineError::TimedOut)
            },
            (Waiting::Save, Event::Saved) => {
                self.waiting = Waiting::Nothing;
                Action::Finish
            },
            (Waiting::Save, Event::SaveFailed) => {
                self.waiting = Waiting::Nothing;
                Action::Abort(PipelineError::SaveFailed)
            },
            _ => {
                self.waiting = Waiting::Nothing;
                Action::Abort(PipelineError::Unexpected)
            },
        }
    }

    fn decide(&mut self) -> (action: Action)
        ensures
            (final(self).progress(), action) == decided(old(self).progress()),
            final(self).project == old(self).project,
    {
        match self.project.extraction_request() {
            None => {
                self.waiting = Waiting::Nothing;
                Action::Finish
            },
            Some(request) => {
                self.waiting = Waiting::Extraction;
                Action::Extract(request)
            },
        }
    }
}

/// Once the frames of a project are recorded as extracted, no step of any
/// run asks for an extraction, and no step changes the state: neither the
/// mark nor the count of frames.
pub proof fn law_extraction_runs_once(progress: Progress, event: Event)
    requires
        progress.state.is_extraction_completed,
    ensures
        !(next(progress, event).1 is Extract),
        next(progress, event).0.state == progress.state,
{
}

/// No step changes a rate or a size that is set: a probe fills what is open
/// and nothing else.
pub proof fn law_probe_fills_only_open(progress: Progress, event: Event)
    ensures
        progress.settings.fps is Some ==> next(progress, event).0.settings.fps == progress.settings.fps,
        progress.settings.resolution is Some ==> next(progress, event).0.settings.resolution
            == progress.settings.resolution,
        forall|metadata: VideoMetadata|
            progress.settings.fps is Some ==> (#[trigger] merged(progress.settings, metadata)).fps
                == progress.settings.fps,
        forall|metadata: VideoMetadata|
            progress.settings.resolution is Some ==> (#[trigger] merged(progress.settings, metadata)).resolution
                == progress.settings.resolution,
{
}

/// How far a stage is on the way from nothing settled to frames extracted.
pub open spec fn stage_rank(stage: Stage) -> int {
    match stage {
        Stage::Uninitialized => 0,
        Stage::MetadataPending => 1,
        Stage::Extracted => 2,
    }
}

/// No step takes a project back to an earlier stage: what is settled stays
/// settled, and what is extracted stays extracted.
pub proof fn law_stages_only_advance(progress: Progress, event: Event)
    ensures
        stage_rank(stage_of(progress.settings, progress.state)) <= stage_rank(
            stage_of(next(progress, event).0.settings, next(progress, event).0.state),
        ),
{
}

/// Frames are marked as extracted by one step only: the one that takes the
/// extractor's return with at least one frame counted, in a run that was
/// waiting for it. The state stays well-formed through every step.
pub proof fn law_completion_needs_frames(progress: Progress, event: Event)
    ensures
        !progress.state.is_extraction_completed && next(progress, event).0.state.is_extraction_completed ==> {
            &&& progress.waiting == Waiting::Extraction
            &&& event matches Event::Extracted(frames)
            &&& frames > 0
            &&& next(progress, event).0.state.extracted_frame_count == frames
        },
        progress.state.well_formed() ==> next(progress, event).0.state.well_formed(),
{
}

} // verus!
