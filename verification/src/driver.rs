use vstd::prelude::*;

use crate::geometry::Extent;
use crate::geometry::Frac;
use crate::geometry::Scale;
use crate::present::PresentMode;
use crate::state::RenderState;
use crate::state::Viewport;
use crate::state::ViewportState;
use crate::state::WindowEvent;
use crate::state::drain_events;
use crate::state::spec_drain;
use crate::state::spec_initial;
use crate::surface::Fatal;
use crate::surface::RebuildOutcome;
use crate::surface::SurfaceCaps;
use crate::surface::Swapchain;
use crate::surface::build_swapchain;
use crate::surface::desired_extent;
use crate::surface::make_framebuffers;
use crate::surface::spec_desired_extent;

verus! {

/// The phase of the frame pipeline: steadily presenting frames,
/// rebuilding an invalid surface (no frame produced that tick), or
/// stopped for good after a close request.
#[derive(Clone, Copy, Debug, PartialEq, Eq, Structural)]
pub enum Phase {
    Presenting,
    Rebuilding,
    Stopped,
}

/// The outcome the device reports for one image acquisition.
#[derive(Clone, Copy, Debug, PartialEq, Eq, Structural)]
pub enum AcquireOutcome {
    /// This presentable image is ready to be drawn to.
    Acquired { image_index: usize },
    /// The swapchain no longer matches the surface: transient, the
    /// surface is flagged invalid and rebuilt next iteration.
    OutOfDate,
    /// Any other acquisition failure: fatal.
    Failed,
}

/// Everything one frame's command buffer depends on: which framebuffer
/// to draw into, the dynamic viewport, and the pointer-derived offset
/// passed to the draw as a per-draw constant.  Presenting uses the same
/// image index.
#[derive(Clone, Copy, Debug, PartialEq, Eq, Structural)]
pub struct FrameCommands {
    pub image_index: usize,
    pub viewport_extent: Extent,
    pub offset_x: Frac,
    pub offset_y: Frac,
}

/// The frame pipeline driver: the render state, the model of the
/// current swapchain, the number of submissions chained so far onto the
/// single in-flight frame future, and whether the loop has stopped.
///
/// A host loop owns the matching device objects and drives this machine
/// once per iteration: drain events into `pump_events`, rebuild the
/// swapchain if `needs_rebuild` and report through `complete_rebuild`,
/// report acquisition through `complete_acquire`, record what
/// `record_frame` returns, and after submitting call `note_submission`,
/// which answers whether the loop continues.
#[derive(Clone, Debug, PartialEq, Eq)]
pub struct Driver {
    pub state: RenderState,
    pub swapchain: Swapchain,
    pub frames_submitted: u64,
    pub stopped: bool,
}

/// The render-state part of completing a rebuild attempt, with what the
/// attempt answers: proceed with this iteration's frame (`Ok(true)`),
/// skip it and retry next iteration (`Ok(false)`), or die (`Err`).
pub open spec fn spec_rebuild_state(s: RenderState, outcome: RebuildOutcome) -> (RenderState,
    Result<bool, Fatal>) {
    match outcome {
        RebuildOutcome::Created { extent, .. } => {
            if s.viewport_state.wf() {
                (
                    RenderState {
                        surface_invalid: false,
                        viewport_state: ViewportState {
                            viewport: Some(Viewport { extent }),
                            scissor: s.viewport_state.scissor,
                        },
                        ..s
                    },
                    Ok(true),
                )
            } else {
                (s, Err(Fatal::ViewportInvariant))
            }
        },
        RebuildOutcome::UnsupportedDimensions => (s, Ok(false)),
        RebuildOutcome::Failed => (s, Err(Fatal::SwapchainCreation)),
    }
}

/// The render-state part of completing an image acquisition, with the
/// acquired index if the frame goes ahead.
pub open spec fn spec_acquire_state(s: RenderState, outcome: AcquireOutcome) -> (RenderState,
    Result<Option<usize>, Fatal>) {
    match outcome {
        AcquireOutcome::Acquired { image_index } => (s, Ok(Some(image_index))),
        AcquireOutcome::OutOfDate => (RenderState { surface_invalid: true, ..s }, Ok(None)),
        AcquireOutcome::Failed => (s, Err(Fatal::ImageAcquire)),
    }
}

impl Driver {
    /// The render state is well formed, the swapchain binds one
    /// framebuffer per image, and whenever the surface is valid the
    /// dynamic viewport shows exactly the swapchain's physical extent.
    pub open spec fn wf(self) -> bool {
        &&& self.state.wf()
        &&& self.swapchain.wf()
        &&& (!self.state.surface_invalid ==> self.state.viewport_state.extent()
            == self.swapchain.extent)
    }

    /// The implicit phase of the loop, derived from the state.
    pub open spec fn phase(self) -> Phase {
        if self.stopped {
            Phase::Stopped
        } else if self.state.surface_invalid {
            Phase::Rebuilding
        } else {
            Phase::Presenting
        }
    }

    /// What one frame's commands are for the given acquired image: the
    /// framebuffer of that image, the current viewport, and the current
    /// draw offset — or the fatal condition that forbids recording.
    pub open spec fn spec_record_frame(self, image_index: usize) -> Result<FrameCommands, Fatal> {
        if !self.state.viewport_state.wf() {
            Err(Fatal::ViewportInvariant)
        } else if image_index >= self.swapchain.framebuffers@.len() {
            Err(Fatal::FramebufferIndex)
        } else {
            Ok(
                FrameCommands {
                    image_index,
                    viewport_extent: self.state.viewport_state.extent(),
                    offset_x: self.state.offset_x,
                    offset_y: self.state.offset_y,
                },
            )
        }
    }

    /// The driver at startup, for a swapchain just built with the given
    /// extent, image count and present mode.
    pub fn new(extent: Extent, scale: Scale, mode: PresentMode, image_count: u32) -> (r: Driver)
        requires
            scale.wf(),
        ensures
            r.wf(),
            r.state == spec_initial(extent, scale),
            r.swapchain.extent == extent,
            r.swapchain.image_count == image_count,
            r.swapchain.present_mode == mode,
            r.frames_submitted == 0,
            !r.stopped,
            r.phase() == Phase::Presenting,
    {
        Driver {
            state: RenderState::initial(extent, scale),
            swapchain: Swapchain {
                extent,
                image_count,
                present_mode: mode,
                framebuffers: make_framebuffers(image_count),
            },
            frames_submitted: 0,
            stopped: false,
        }
    }

    /// Applies one polling pass of drained events to the render state;
    /// nothing else of the driver moves.
    pub fn pump_events(&mut self, events: &Vec<WindowEvent>)
        requires
            !old(self).stopped,
        ensures
            final(self).state == spec_drain(old(self).state, events@),
            final(self).swapchain == old(self).swapchain,
            final(self).frames_submitted == old(self).frames_submitted,
            final(self).stopped == old(self).stopped,
    {
        drain_events(&mut self.state, events);
    }

    /// Whether the surface must be rebuilt before a frame can be drawn.
    pub fn needs_rebuild(&self) -> (r: bool)
        ensures
            r == self.state.surface_invalid,
    {
        self.state.surface_invalid
    }

    /// The extent a rebuild should request right now.
    pub fn rebuild_target(&self, caps: &SurfaceCaps) -> (r: Extent)
        requires
            self.state.scale.wf(),
        ensures
            r == spec_desired_extent(self.state, *caps),
    {
        desired_extent(&self.state, caps)
    }

    /// Completes one rebuild attempt.  On success the replacement
    /// swapchain (the reported extent and image count, the present mode
    /// carried over, fresh framebuffers) takes the old one's place only
    /// now, fully constructed; the viewport is brought to the new
    /// extent and the invalidity flag cleared.  A transient
    /// unsupported-dimensions report changes nothing and skips this
    /// iteration's frame; anything else is fatal and changes nothing.
    pub fn complete_rebuild(&mut self, outcome: RebuildOutcome) -> (r: Result<bool, Fatal>)
        requires
            !old(self).stopped,
        ensures
            final(self).state == spec_rebuild_state(old(self).state, outcome).0,
            r == spec_rebuild_state(old(self).state, outcome).1,
            final(self).frames_submitted == old(self).frames_submitted,
            final(self).stopped == old(self).stopped,
            r != Ok::<bool, Fatal>(true) ==> final(self).swapchain == old(self).swapchain,
            outcome matches RebuildOutcome::Created { extent, image_count }
                ==> (old(self).state.viewport_state.wf() ==> r == Ok::<bool, Fatal>(true)
                && final(self).swapchain.wf()
                && final(self).swapchain.extent == extent
                && final(self).swapchain.image_count == image_count
                && final(self).swapchain.present_mode == old(self).swapchain.present_mode
                && !final(self).state.surface_invalid
                && final(self).state.viewport_state.extent() == extent),
            old(self).wf() && old(self).state.viewport_state.wf() ==> final(self).wf(),
    {
        match outcome {
            RebuildOutcome::Created { extent, image_count } => {
                if self.state.viewport_state.viewport.is_some() {
                    self.swapchain = build_swapchain(&self.swapchain, extent, image_count);
                    self.state.viewport_state.viewport = Some(Viewport { extent });
                    self.state.surface_invalid = false;
                    Ok(true)
                } else {
                    Err(Fatal::ViewportInvariant)
                }
            },
            RebuildOutcome::UnsupportedDimensions => Ok(false),
            RebuildOutcome::Failed => Err(Fatal::SwapchainCreation),
        }
    }

    /// Completes one image acquisition.  Staleness flags the surface
    /// invalid and skips this iteration's frame; any other failure is
    /// fatal; otherwise the acquired index comes back unchanged.
    pub fn complete_acquire(&mut self, outcome: AcquireOutcome) -> (r: Result<Option<usize>, Fatal>)
        requires
            !old(self).stopped,
        ensures
            final(self).state == spec_acquire_state(old(self).state, outcome).0,
            r == spec_acquire_state(old(self).state, outcome).1,
            final(self).swapchain == old(self).swapchain,
            final(self).frames_submitted == old(self).frames_submitted,
            final(self).stopped == old(self).stopped,
            old(self).wf() ==> final(self).wf(),
    {
        match outcome {
            AcquireOutcome::Acquired { image_index } => Ok(Some(image_index)),
            AcquireOutcome::OutOfDate => {
                self.state.surface_invalid = true;
                Ok(None)
            },
            AcquireOutcome::Failed => Err(Fatal::ImageAcquire),
        }
    }

    /// Decides one frame's commands for the acquired image, exactly as
    /// `spec_record_frame` states: the fixed render pass on that
    /// image's framebuffer, cleared to opaque black, one draw of the
    /// static geometry with the current viewport and the current draw
    /// offset as its per-draw constant.
    pub fn record_frame(&self, image_index: usize) -> (r: Result<FrameCommands, Fatal>)
        ensures
            r == self.spec_record_frame(image_index),
    {
        match self.state.viewport_state.viewport {
            None => Err(Fatal::ViewportInvariant),
            Some(viewport) => {
                if image_index >= self.swapchain.framebuffers.len() {
                    Err(Fatal::FramebufferIndex)
                } else {
                    Ok(
                        FrameCommands {
                            image_index,
                            viewport_extent: viewport.extent,
                            offset_x: self.state.offset_x,
                            offset_y: self.state.offset_y,
                        },
                    )
                }
            },
        }
    }

    /// Accounts for one completed submission: the new in-flight future
    /// — the previous one joined with this frame's work — replaces the
    /// previous one, so the chain grows by exactly one.  Answers
    /// whether the loop continues: it stops, after this one last
    /// submission, exactly when termination has been requested.
    pub fn note_submission(&mut self) -> (cont: bool)
        requires
            !old(self).stopped,
            old(self).frames_submitted < u64::MAX,
        ensures
            final(self).frames_submitted == old(self).frames_submitted + 1,
            final(self).state == old(self).state,
            final(self).swapchain == old(self).swapchain,
            final(self).stopped == old(self).state.termination_requested,
            cont == !old(self).state.termination_requested,
            old(self).state.termination_requested ==> final(self).phase() == Phase::Stopped,
            old(self).wf() ==> final(self).wf(),
    {
        self.frames_submitted = self.frames_submitted + 1;
        if self.state.termination_requested {
            self.stopped = true;
            false
        } else {
            true
        }
    }
}

} // verus!
