//! The render orchestrator: a state machine that sequences one screenshot.
//!
//! A single render walks the stages
//! `Idle → MapLoaded → DeviceReady → ResourcesUploaded → FrameConfigured →
//! PassRecorded → Submitted → ReadBack → Saved`
//! strictly in order; there is no branching, no loop, no retry. Each error
//! of the taxonomy can be raised at exactly one stage, and any error aborts
//! the pipeline for good: a failed render produces no output.
//!
//! The unverified code around the library performs the outside work of each
//! stage — file loading, GPU calls, the blocking readback, the file write —
//! and reports every outcome back here; the ordering and abort rules are
//! proved over this machine.

use vstd::prelude::*;

use crate::camera::{Camera, Frac};
use crate::compose::{draw_phases, DrawPhase};
use crate::error::PipelineError;
use crate::image::Image;
use crate::layers::{has_game_layer, map_size, LayerInfo};

verus! {

/// The stages of one render, plus the terminal abort.
#[derive(Clone, Copy, Debug, PartialEq, Eq, Structural)]
pub enum Stage {
    /// Nothing has happened yet.
    Idle,
    /// The map document is fully loaded and layer-resolved.
    MapLoaded,
    /// A GPU device and queue have been acquired.
    DeviceReady,
    /// The map's static content is resident on the device.
    ResourcesUploaded,
    /// Camera and per-frame data are set for this frame.
    FrameConfigured,
    /// The render pass has been recorded and its scope closed.
    PassRecorded,
    /// The recorded commands were submitted to the queue.
    Submitted,
    /// The target's pixels are back in host memory.
    ReadBack,
    /// The output file is written: the one success terminal.
    Saved,
    /// A stage failed: terminal, no output is produced.
    Aborted(PipelineError),
}

/// What the outside work of one stage reported.
#[derive(Clone, Copy, Debug, PartialEq, Eq, Structural)]
pub enum StageOutcome {
    Succeeded,
    Failed(PipelineError),
}

/// Terminal stages: nothing moves the pipeline past them.
pub open spec fn is_terminal(s: Stage) -> bool {
    s is Saved || s is Aborted
}

/// The successor of each stage on success; terminals stay.
pub open spec fn next_stage(s: Stage) -> Stage {
    match s {
        Stage::Idle => Stage::MapLoaded,
        Stage::MapLoaded => Stage::DeviceReady,
        Stage::DeviceReady => Stage::ResourcesUploaded,
        Stage::ResourcesUploaded => Stage::FrameConfigured,
        Stage::FrameConfigured => Stage::PassRecorded,
        Stage::PassRecorded => Stage::Submitted,
        Stage::Submitted => Stage::ReadBack,
        Stage::ReadBack => Stage::Saved,
        Stage::Saved => Stage::Saved,
        Stage::Aborted(e) => Stage::Aborted(e),
    }
}

/// The one stage at which each error of the taxonomy can arise.
pub open spec fn error_stage(e: PipelineError) -> Stage {
    match e {
        PipelineError::MapLoad => Stage::Idle,
        PipelineError::RequiredLayerMissing => Stage::Idle,
        PipelineError::AssetResolution => Stage::Idle,
        PipelineError::LayerLoad => Stage::Idle,
        PipelineError::DeviceUnavailable => Stage::MapLoaded,
        PipelineError::ImageSave => Stage::ReadBack,
    }
}

/// How far along each stage is; the abort ranks below everything.
pub open spec fn rank(s: Stage) -> int {
    match s {
        Stage::Idle => 0,
        Stage::MapLoaded => 1,
        Stage::DeviceReady => 2,
        Stage::ResourcesUploaded => 3,
        Stage::FrameConfigured => 4,
        Stage::PassRecorded => 5,
        Stage::Submitted => 6,
        Stage::ReadBack => 7,
        Stage::Saved => 8,
        Stage::Aborted(_) => -1,
    }
}

/// The stage of each rank on the success path.
pub open spec fn stage_of_rank(r: int) -> Stage {
    if r == 0 {
        Stage::Idle
    } else if r == 1 {
        Stage::MapLoaded
    } else if r == 2 {
        Stage::DeviceReady
    } else if r == 3 {
        Stage::ResourcesUploaded
    } else if r == 4 {
        Stage::FrameConfigured
    } else if r == 5 {
        Stage::PassRecorded
    } else if r == 6 {
        Stage::Submitted
    } else if r == 7 {
        Stage::ReadBack
    } else {
        Stage::Saved
    }
}

/// One transition of the machine: success advances to the next stage, a
/// failure aborts — but only the error that belongs to the current stage
/// can arise there. Terminal stages absorb every event.
pub open spec fn step(s: Stage, o: StageOutcome) -> Stage {
    if is_terminal(s) {
        s
    } else {
        match o {
            StageOutcome::Succeeded => next_stage(s),
            StageOutcome::Failed(e) => if error_stage(e) == s {
                Stage::Aborted(e)
            } else {
                s
            },
        }
    }
}

/// The stage reached from `s` after the outcomes in `events`, in order.
pub open spec fn run(s: Stage, events: Seq<StageOutcome>) -> Stage
    decreases events.len(),
{
    if events.len() == 0 {
        s
    } else {
        run(step(s, events.first()), events.drop_first())
    }
}

/// The orchestrator of one render: the current stage plus the data the
/// stages establish — the requested resolution, the camera, and the map
/// size read from the game layer.
pub struct Pipeline {
    pub stage: Stage,
    /// Requested output resolution in pixels.
    pub width: u32,
    pub height: u32,
    pub camera: Camera,
    /// Map size in tiles, known once the map is loaded.
    pub map_width: u32,
    pub map_height: u32,
}

impl Pipeline {
    pub open spec fn wf(self) -> bool {
        &&& self.width > 0
        &&& self.height > 0
        &&& self.camera.wf()
    }

    /// A fresh pipeline for one render at the given resolution, with the
    /// camera at its defaults.
    pub fn new(width: u32, height: u32, initial_zoom: Frac) -> (p: Pipeline)
        requires
            width > 0,
            height > 0,
            initial_zoom.wf(),
        ensures
            p.wf(),
            p.stage is Idle,
            p.width == width,
            p.height == height,
            p.camera == Camera::spec_new(initial_zoom),
    {
        Pipeline {
            stage: Stage::Idle,
            width,
            height,
            camera: Camera::new(initial_zoom),
            map_width: 0,
            map_height: 0,
        }
    }

    /// The map document is loaded and its layers are resolved: take the map
    /// size from the first game/physics layer. A map without a game layer
    /// aborts the pipeline with `RequiredLayerMissing` — its size cannot be
    /// determined and nothing is rendered.
    pub fn map_loaded(&mut self, layers: &Vec<LayerInfo>) -> (r: Result<
        (u32, u32),
        PipelineError,
    >)
        requires
            old(self).wf(),
            old(self).stage is Idle,
        ensures
            final(self).wf(),
            final(self).width == old(self).width,
            final(self).height == old(self).height,
            final(self).camera == old(self).camera,
            match r {
                Ok(size) => {
                    &&& has_game_layer(layers@)
                    &&& final(self).stage == step(old(self).stage, StageOutcome::Succeeded)
                    &&& final(self).stage is MapLoaded
                    &&& final(self).map_width == size.0
                    &&& final(self).map_height == size.1
                    &&& exists|i: int|
                        {
                            &&& 0 <= i < layers@.len()
                            &&& layers@[i].kind is Game
                            &&& (forall|j: int| 0 <= j < i ==> !(layers@[j].kind is Game))
                            &&& size.0 == layers@[i].width
                            &&& size.1 == layers@[i].height
                        }
                },
                Err(e) => {
                    &&& !has_game_layer(layers@)
                    &&& e == PipelineError::RequiredLayerMissing
                    &&& final(self).stage == step(
                        old(self).stage,
                        StageOutcome::Failed(PipelineError::RequiredLayerMissing),
                    )
                    &&& final(self).stage == Stage::Aborted(PipelineError::RequiredLayerMissing)
                },
            },
    {
        match map_size(layers) {
            Ok(size) => {
                self.map_width = size.0;
                self.map_height = size.1;
                self.stage = Stage::MapLoaded;
                Ok(size)
            },
            Err(e) => {
                self.stage = Stage::Aborted(PipelineError::RequiredLayerMissing);
                Err(e)
            },
        }
    }

    /// The outside work of the current stage failed with the error that
    /// belongs to this stage: abort the pipeline. Terminal: no later call
    /// moves it, and no output is produced.
    pub fn fail(&mut self, e: PipelineError)
        requires
            !is_terminal(old(self).stage),
            error_stage(e) == old(self).stage,
        ensures
            final(self).stage == step(old(self).stage, StageOutcome::Failed(e)),
            final(self).stage == Stage::Aborted(e),
            final(self).width == old(self).width,
            final(self).height == old(self).height,
            final(self).camera == old(self).camera,
            final(self).map_width == old(self).map_width,
            final(self).map_height == old(self).map_height,
    {
        self.stage = Stage::Aborted(e);
    }

    /// A GPU adapter, device and queue were acquired.
    pub fn device_ready(&mut self)
        requires
            old(self).stage is MapLoaded,
        ensures
            final(self).stage == step(old(self).stage, StageOutcome::Succeeded),
            final(self).stage is DeviceReady,
            *final(self) == (Pipeline { stage: Stage::DeviceReady, ..*old(self) }),
    {
        self.stage = Stage::DeviceReady;
    }

    /// The map's buffers and textures are uploaded and bound into a
    /// renderable unit, fully, before any render pass references them.
    pub fn resources_uploaded(&mut self)
        requires
            old(self).stage is DeviceReady,
        ensures
            final(self).stage == step(old(self).stage, StageOutcome::Succeeded),
            final(self).stage is ResourcesUploaded,
            *final(self) == (Pipeline { stage: Stage::ResourcesUploaded, ..*old(self) }),
    {
        self.stage = Stage::ResourcesUploaded;
    }

    /// Configure the camera for this frame — aspect ratio from the output
    /// resolution, uniform zoom, world position — before any per-frame
    /// upload reads it: updates read the current camera state, there is no
    /// deferred application.
    pub fn configure_frame(&mut self, zoom: Frac, pos_x: Frac, pos_y: Frac)
        requires
            old(self).wf(),
            old(self).stage is ResourcesUploaded,
            zoom.wf(),
            pos_x.wf(),
            pos_y.wf(),
        ensures
            final(self).wf(),
            final(self).stage == step(old(self).stage, StageOutcome::Succeeded),
            final(self).stage is FrameConfigured,
            final(self).width == old(self).width,
            final(self).height == old(self).height,
            final(self).map_width == old(self).map_width,
            final(self).map_height == old(self).map_height,
            final(self).camera == (Camera {
                pos_x,
                pos_y,
                zoom_x: zoom,
                zoom_y: zoom,
                aspect_w: old(self).width,
                aspect_h: old(self).height,
            }),
            final(self).camera.aspect_ratio_is(old(self).width, old(self).height),
    {
        let width = self.width;
        let height = self.height;
        self.camera.configure(zoom, width, height, pos_x, pos_y);
        self.stage = Stage::FrameConfigured;
    }

    /// The draw phases the render pass must record, in their fixed order:
    /// background first, then foreground.
    pub fn record_phases(&self) -> (v: Vec<DrawPhase>)
        requires
            self.stage is FrameConfigured,
        ensures
            v@.len() == 2,
            v@[0] is Background,
            v@[1] is Foreground,
    {
        draw_phases()
    }

    /// The render pass recorded both draw phases and its recording scope
    /// was closed, releasing the pass object.
    pub fn pass_recorded(&mut self)
        requires
            old(self).stage is FrameConfigured,
        ensures
            final(self).stage == step(old(self).stage, StageOutcome::Succeeded),
            final(self).stage is PassRecorded,
            *final(self) == (Pipeline { stage: Stage::PassRecorded, ..*old(self) }),
    {
        self.stage = Stage::PassRecorded;
    }

    /// The recorded commands were submitted to the queue — after recording
    /// closed, and before any readback is attempted.
    pub fn submitted(&mut self)
        requires
            old(self).stage is PassRecorded,
        ensures
            final(self).stage == step(old(self).stage, StageOutcome::Succeeded),
            final(self).stage is Submitted,
            *final(self) == (Pipeline { stage: Stage::Submitted, ..*old(self) }),
    {
        self.stage = Stage::Submitted;
    }

    /// The GPU finished writing the target and its packed bytes are back in
    /// host memory: assemble the rendered image. Readback comes strictly
    /// after submission — this machine offers it in no other stage — and
    /// the image holds exactly `width * height` RGBA8 pixels.
    pub fn read_back(&mut self, bytes: &Vec<u8>) -> (img: Image)
        requires
            old(self).wf(),
            old(self).stage is Submitted,
            bytes@.len() == 4 * old(self).width * old(self).height,
            old(self).width * old(self).height <= usize::MAX,
        ensures
            final(self).stage == step(old(self).stage, StageOutcome::Succeeded),
            final(self).stage is ReadBack,
            final(self).width == old(self).width,
            final(self).height == old(self).height,
            final(self).camera == old(self).camera,
            final(self).map_width == old(self).map_width,
            final(self).map_height == old(self).map_height,
            img.wf(),
            img.width == old(self).width,
            img.height == old(self).height,
            forall|i: int|
                0 <= i < old(self).width * old(self).height ==> img.pixels@[i]
                    == (crate::image::Rgba {
                    r: bytes@[4 * i],
                    g: bytes@[4 * i + 1],
                    b: bytes@[4 * i + 2],
                    a: bytes@[4 * i + 3],
                }),
    {
        let img = Image::from_bytes(self.width, self.height, bytes);
        self.stage = Stage::ReadBack;
        img
    }

    /// The image was encoded and written to the output path: the pipeline
    /// ends in its success terminal.
    pub fn saved(&mut self)
        requires
            old(self).stage is ReadBack,
        ensures
            final(self).stage == step(old(self).stage, StageOutcome::Succeeded),
            final(self).stage is Saved,
            *final(self) == (Pipeline { stage: Stage::Saved, ..*old(self) }),
    {
        self.stage = Stage::Saved;
    }
}

/// Running a trace is running its parts one after the other.
pub proof fn lemma_run_append(s: Stage, a: Seq<StageOutcome>, b: Seq<StageOutcome>)
    ensures
        run(s, a + b) == run(run(s, a), b),
    decreases a.len(),
{
    if a.len() == 0 {
        assert(a + b =~= b);
    } else {
        assert((a + b).first() == a.first());
        assert((a + b).drop_first() =~= a.drop_first() + b);
        lemma_run_append(step(s, a.first()), a.drop_first(), b);
    }
}

/// Terminal stages absorb every further event.
pub proof fn lemma_terminal_absorbing(s: Stage, events: Seq<StageOutcome>)
    requires
        is_terminal(s),
    ensures
        run(s, events) == s,
    decreases events.len(),
{
    if events.len() > 0 {
        lemma_terminal_absorbing(s, events.drop_first());
    }
}

/// Once a prefix of a trace has aborted, the whole trace ends in that same
/// abort: no retry, no recovery, and in particular never `Saved` — a failed
/// render produces no output.
pub proof fn lemma_abort_is_final(events: Seq<StageOutcome>, i: int, e: PipelineError)
    requires
        0 <= i <= events.len(),
        run(Stage::Idle, events.take(i)) == Stage::Aborted(e),
    ensures
        run(Stage::Idle, events) == Stage::Aborted(e),
{
    assert(events =~= events.take(i) + events.skip(i));
    lemma_run_append(Stage::Idle, events.take(i), events.skip(i));
    lemma_terminal_absorbing(Stage::Aborted(e), events.skip(i));
}

/// A run of a prefix of one more event is one step into the run of the
/// rest of the prefix.
proof fn lemma_run_take_shift(s: Stage, events: Seq<StageOutcome>, i: int)
    requires
        1 <= i <= events.len(),
    ensures
        run(s, events.take(i)) == run(step(s, events.first()), events.drop_first().take(i - 1)),
{
    assert(events.take(i).first() == events.first());
    assert(events.take(i).drop_first() =~= events.drop_first().take(i - 1));
}

/// Every abort happens at the one stage its error belongs to: a trace that
/// ends in `Aborted(e)` passed through `error_stage(e)`.
pub proof fn lemma_abort_at_its_stage(s: Stage, events: Seq<StageOutcome>, e: PipelineError)
    requires
        !(s is Aborted),
        run(s, events) == Stage::Aborted(e),
    ensures
        exists|i: int|
            0 <= i <= events.len() && run(s, events.take(i)) == error_stage(e),
    decreases events.len(),
{
    if s == error_stage(e) {
        assert(events.take(0) =~= Seq::<StageOutcome>::empty());
        assert(run(s, events.take(0)) == error_stage(e));
    } else {
        assert(events.len() > 0);
        let s1 = step(s, events.first());
        if s1 is Aborted {
            lemma_terminal_absorbing(s1, events.drop_first());
            assert(s1 == Stage::Aborted(e));
            assert(error_stage(e) == s);
            assert(false);
        } else {
            lemma_abort_at_its_stage(s1, events.drop_first(), e);
            let i1 = choose|i1: int|
                0 <= i1 <= events.drop_first().len() && run(
                    s1,
                    events.drop_first().take(i1),
                ) == error_stage(e);
            lemma_run_take_shift(s, events, i1 + 1);
            assert(run(s, events.take(i1 + 1)) == error_stage(e));
        }
    }
}

/// An output-write failure comes only after a successful render: a trace
/// that ends in `Aborted(ImageSave)` reached the `ReadBack` stage first —
/// the GPU work had completed and its pixels were read back, and the error
/// is reported, not swallowed.
pub proof fn lemma_save_error_after_successful_render(events: Seq<StageOutcome>)
    requires
        run(Stage::Idle, events) == Stage::Aborted(PipelineError::ImageSave),
    ensures
        exists|i: int|
            0 <= i <= events.len() && run(Stage::Idle, events.take(i)) == Stage::ReadBack,
{
    lemma_abort_at_its_stage(Stage::Idle, events, PipelineError::ImageSave);
}

/// Helper: a trace from a stage on the success path that ends in `Saved`
/// passes through every stage of every rank in between.
proof fn lemma_visits_from(s: Stage, events: Seq<StageOutcome>, r: int)
    requires
        !(s is Aborted),
        run(s, events) == Stage::Saved,
        rank(s) <= r <= 8,
    ensures
        exists|i: int| 0 <= i <= events.len() && run(s, events.take(i)) == stage_of_rank(r),
    decreases events.len(),
{
    if r == rank(s) {
        assert(events.take(0) =~= Seq::<StageOutcome>::empty());
        assert(stage_of_rank(r) == s);
        assert(run(s, events.take(0)) == stage_of_rank(r));
    } else {
        assert(s != Stage::Saved);
        assert(events.len() > 0);
        let s1 = step(s, events.first());
        if s1 is Aborted {
            lemma_terminal_absorbing(s1, events.drop_first());
            assert(false);
        } else {
            assert(rank(s1) <= r);
            lemma_visits_from(s1, events.drop_first(), r);
            let i1 = choose|i1: int|
                0 <= i1 <= events.drop_first().len() && run(
                    s1,
                    events.drop_first().take(i1),
                ) == stage_of_rank(r);
            lemma_run_take_shift(s, events, i1 + 1);
            assert(run(s, events.take(i1 + 1)) == stage_of_rank(r));
        }
    }
}

/// Strict sequencing: a trace that ends in `Saved` visited every stage of
/// the pipeline, in particular each of map load, upload, frame
/// configuration, pass recording, submission and readback, before the
/// save. No stage can be skipped on the way to an output file.
pub proof fn lemma_saved_visits_every_stage(events: Seq<StageOutcome>, r: int)
    requires
        run(Stage::Idle, events) == Stage::Saved,
        0 <= r <= 8,
    ensures
        exists|i: int|
            0 <= i <= events.len() && run(Stage::Idle, events.take(i)) == stage_of_rank(r),
{
    lemma_visits_from(Stage::Idle, events, r);
}

} // verus!
