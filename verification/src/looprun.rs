//! Per-iteration decisions of the acquisition-render loop: whether a
//! freshly acquired frame is fit for detection, and, for an admitted
//! frame, the full detect-measure-annotate step that yields the overlay
//! commands and the throughput report.

use vstd::prelude::*;

use crate::detect::{detect_tags, estimate_pose, DetectionBatch};
use crate::framerate::{FrameRateWindow, RateReport};
use crate::geometry::{
    corners_degenerate, overlay_commands, spec_overlay_all, RenderCommand, TagObservation,
};

verus! {

/// Milliseconds the loop pauses after a degenerate frame before the next
/// acquisition.
pub const DEGENERATE_FRAME_PAUSE_MS: u64 = 50;

/// What to do with one freshly acquired frame: skip it after a short
/// pause (sensor not warmed up yet), or process it.
#[derive(Clone, Copy, Debug, PartialEq, Eq, Structural)]
pub enum FrameDecision {
    Skip { pause_ms: u64 },
    Process,
}

/// Decides whether a frame is fit for detection: a frame of zero width or
/// zero height is skipped after a short pause, and the detection engine
/// is not consulted for it; every other frame is processed.
pub fn admit_frame(width: i32, height: i32) -> (d: FrameDecision)
    ensures
        d == if width == 0 || height == 0 {
            FrameDecision::Skip { pause_ms: DEGENERATE_FRAME_PAUSE_MS }
        } else {
            FrameDecision::Process
        },
{
    if width == 0 || height == 0 {
        FrameDecision::Skip { pause_ms: DEGENERATE_FRAME_PAUSE_MS }
    } else {
        FrameDecision::Process
    }
}

/// The loop's cross-iteration state: the rolling frame-rate window and
/// whether the first processed frame is still to come.
#[derive(Clone, Copy, Debug, PartialEq, Eq, Structural)]
pub struct LoopState {
    pub window: FrameRateWindow,
    pub first: bool,
}

/// What one processed frame produces besides the side effects: the
/// overlay commands to draw and the throughput report.
pub struct AnnotateOutput {
    pub commands: Vec<RenderCommand>,
    pub report: RateReport,
}

/// Everything one full iteration on an admitted frame produces: the
/// normalized observations, one optional pose per observation, the
/// overlay commands and the throughput report.
pub struct IterationOutput {
    pub observations: Vec<TagObservation>,
    pub poses: Vec<Option<apriltag::Pose>>,
    pub commands: Vec<RenderCommand>,
    pub report: RateReport,
}

impl LoopState {
    /// The window this state's frame-rate window becomes when a frame is
    /// processed at the given time: reset first if this is the first
    /// processed frame, then advanced by one tick.
    pub open spec fn spec_window_after(self, now_ms: u64) -> FrameRateWindow {
        if self.first {
            FrameRateWindow::spec_fresh(now_ms).spec_tick(now_ms)
        } else {
            self.window.spec_tick(now_ms)
        }
    }

    /// The state at loop start: an empty window and the first processed
    /// frame still to come.
    pub fn new(now_ms: u64) -> (s: LoopState)
        ensures
            s.window == FrameRateWindow::spec_fresh(now_ms),
            s.first,
            s.window.wf(),
    {
        LoopState { window: FrameRateWindow::new(now_ms), first: true }
    }

    /// Annotates one processed frame: emits, per observation and in
    /// detection order, the bounding rectangle, the four edge segments and
    /// the center marker; resets the window on the first processed frame;
    /// counts the frame; and reports throughput. A frame with no
    /// observations yields no commands, and is still counted.
    pub fn annotate(&mut self, observations: &Vec<TagObservation>, now_ms: u64) -> (out:
        AnnotateOutput)
        requires
            old(self).window.wf(),
        ensures
            !final(self).first,
            final(self).window == old(self).spec_window_after(now_ms),
            final(self).window.wf(),
            out.commands@ == spec_overlay_all(observations@),
            out.commands@.len() == 6 * observations@.len(),
            observations@.len() == 0 ==> out.commands@.len() == 0,
            out.report.frames == final(self).window.frames_in_window,
            out.report.elapsed_ms == if now_ms >= final(self).window.window_start_ms {
                now_ms - final(self).window.window_start_ms
            } else {
                0
            },
    {
        if self.first {
            self.window.reset(now_ms);
            self.first = false;
        }
        let mut commands: Vec<RenderCommand> = Vec::new();
        let mut i: usize = 0;
        while i < observations.len()
            invariant
                i <= observations@.len(),
                commands@ == spec_overlay_all(observations@.take(i as int)),
                commands@.len() == 6 * i,
            decreases observations@.len() - i,
        {
            let mut cmds = overlay_commands(&observations[i]);
            commands.append(&mut cmds);
            proof {
                assert(observations@.take(i + 1).drop_last() =~= observations@.take(i as int));
                assert(observations@.take(i + 1).last() == observations@[i as int]);
            }
            i = i + 1;
        }
        proof {
            assert(observations@.take(observations@.len() as int) =~= observations@);
        }
        self.window.tick(now_ms);
        let report = self.window.report(now_ms);
        AnnotateOutput { commands, report }
    }

    /// One full iteration on an admitted frame: run the detection engine,
    /// normalize its output, ask the pose solver for each observation
    /// whose corners are not degenerate, and annotate the frame. The
    /// commands are exactly six per observation in detection order, every
    /// degenerate observation's pose is absent, and the frame-rate window
    /// advances by exactly one processed frame.
    pub fn run_iteration(
        &mut self,
        detector: &mut apriltag::Detector,
        frame: &apriltag::Image,
        params: &apriltag::TagParams,
        now_ms: u64,
    ) -> (out: IterationOutput)
        requires
            old(self).window.wf(),
        ensures
            !final(self).first,
            final(self).window == old(self).spec_window_after(now_ms),
            final(self).window.wf(),
            out.poses@.len() == out.observations@.len(),
            forall|j: int|
                0 <= j < out.observations@.len() && corners_degenerate(
                    #[trigger] out.observations@[j].corners,
                ) ==> out.poses@[j] is None,
            out.commands@ == spec_overlay_all(out.observations@),
            out.commands@.len() == 6 * out.observations@.len(),
            out.report.frames == final(self).window.frames_in_window,
            out.report.elapsed_ms == if now_ms >= final(self).window.window_start_ms {
                now_ms - final(self).window.window_start_ms
            } else {
                0
            },
    {
        let batch: DetectionBatch = detect_tags(detector, frame);
        let mut poses: Vec<Option<apriltag::Pose>> = Vec::new();
        let mut i: usize = 0;
        while i < batch.raw.len()
            invariant
                i <= batch.raw@.len(),
                batch.observations@.len() == batch.raw@.len(),
                poses@.len() == i,
                forall|j: int|
                    0 <= j < i && corners_degenerate(
                        #[trigger] batch.observations@[j].corners,
                    ) ==> poses@[j] is None,
            decreases batch.raw@.len() - i,
        {
            let pose = estimate_pose(&batch.raw[i], &batch.observations[i], params);
            poses.push(pose);
            i = i + 1;
        }
        let ann = self.annotate(&batch.observations, now_ms);
        IterationOutput {
            observations: batch.observations,
            poses,
            commands: ann.commands,
            report: ann.report,
        }
    }
}

} // verus!
