use vstd::prelude::*;

use crate::geometry::Extent;
use crate::geometry::Frac;
use crate::geometry::Scale;
use crate::geometry::ndc_offset;
use crate::geometry::spec_ndc_offset;

verus! {

/// A window-system event, as the state machine reads it.  Logical
/// coordinates arrive as integers and the scale factor as an exact
/// rational; the host converts from whatever units its event source
/// reports.  `Other` stands for every event kind the translator
/// ignores by design.
#[derive(Clone, Copy, Debug, PartialEq, Eq, Structural)]
pub enum WindowEvent {
    CloseRequested,
    ScaleFactorChanged { scale: Scale },
    Resized { width: i64, height: i64 },
    PointerMoved { x: i64, y: i64 },
    Other,
}

/// The single dynamic viewport handed to every draw.  Its origin and
/// depth range are fixed by the pipeline; only the extent varies, and it
/// must track the physical extent of the current swapchain.
#[derive(Clone, Copy, Debug, PartialEq, Eq, Structural)]
pub struct Viewport {
    pub extent: Extent,
}

/// The dynamic pipeline state handed to every draw.  The pipeline is
/// built for exactly one dynamic viewport, so an absent viewport is an
/// invariant violation; the scissor stays unset for this pipeline.
#[derive(Clone, Copy, Debug, PartialEq, Eq)]
pub struct ViewportState {
    pub viewport: Option<Viewport>,
    pub scissor: Option<Extent>,
}

impl ViewportState {
    /// The one dynamic viewport is configured.
    pub open spec fn wf(self) -> bool {
        self.viewport is Some
    }

    /// The extent of the configured viewport.
    pub open spec fn extent(self) -> Extent
        recommends
            self.wf(),
    {
        self.viewport->Some_0.extent
    }

    /// A well-formed viewport state showing the given extent.
    pub fn with_extent(extent: Extent) -> (r: ViewportState)
        ensures
            r == (ViewportState { viewport: Some(Viewport { extent }), scissor: None }),
    {
        ViewportState { viewport: Some(Viewport { extent }), scissor: None }
    }
}

/// The render state: the single mutable record shared between the event
/// translator and the frame loop.
#[derive(Clone, Copy, Debug, PartialEq, Eq)]
pub struct RenderState {
    /// Set on a window-close request; the loop-exit signal.
    pub termination_requested: bool,
    /// Set on resize or presentation staleness; cleared only by a
    /// successful swapchain rebuild.
    pub surface_invalid: bool,
    /// The display scale factor (device pixel ratio).
    pub scale: Scale,
    /// The logical window width, as last reported by a resize.
    pub window_width: i64,
    /// The logical window height, as last reported by a resize.
    pub window_height: i64,
    /// Horizontal draw offset in normalized device coordinates, derived
    /// from the last pointer position.
    pub offset_x: Frac,
    /// Vertical draw offset in normalized device coordinates.
    pub offset_y: Frac,
    /// The dynamic viewport configuration handed to each draw.
    pub viewport_state: ViewportState,
}

impl RenderState {
    pub open spec fn wf(self) -> bool {
        self.scale.wf() && self.viewport_state.wf()
    }

    /// The render state at startup: nothing requested or invalid, the
    /// draw offset centered, and the viewport matching the extent the
    /// first swapchain was built with.
    pub fn initial(extent: Extent, scale: Scale) -> (r: RenderState)
        requires
            scale.wf(),
        ensures
            r == spec_initial(extent, scale),
            r.wf(),
    {
        RenderState {
            termination_requested: false,
            surface_invalid: false,
            scale,
            window_width: extent.width as i64,
            window_height: extent.height as i64,
            offset_x: Frac::zero(),
            offset_y: Frac::zero(),
            viewport_state: ViewportState::with_extent(extent),
        }
    }
}

/// The startup render state for a swapchain built with `extent`.
pub open spec fn spec_initial(extent: Extent, scale: Scale) -> RenderState {
    RenderState {
        termination_requested: false,
        surface_invalid: false,
        scale,
        window_width: extent.width as i64,
        window_height: extent.height as i64,
        offset_x: Frac { num: 0, den: 1 },
        offset_y: Frac { num: 0, den: 1 },
        viewport_state: ViewportState { viewport: Some(Viewport { extent }), scissor: None },
    }
}

/// The effect of one event on the render state:
/// - a close request sets the termination flag;
/// - a scale change replaces the scale factor;
/// - a resize flags the surface invalid and records the new size;
/// - a pointer move recomputes the draw offset from the current size;
/// - anything else changes nothing.
pub open spec fn spec_handle(s: RenderState, e: WindowEvent) -> RenderState {
    match e {
        WindowEvent::CloseRequested => RenderState { termination_requested: true, ..s },
        WindowEvent::ScaleFactorChanged { scale } => RenderState { scale, ..s },
        WindowEvent::Resized { width, height } => RenderState {
            surface_invalid: true,
            window_width: width,
            window_height: height,
            ..s
        },
        WindowEvent::PointerMoved { x, y } => RenderState {
            offset_x: spec_ndc_offset(x as int, s.window_width as int),
            offset_y: spec_ndc_offset(y as int, s.window_height as int),
            ..s
        },
        WindowEvent::Other => s,
    }
}

/// Translates one window-system event into a mutation of the render
/// state, exactly as `spec_handle` states.
pub fn handle(event: WindowEvent, state: &mut RenderState)
    ensures
        *final(state) == spec_handle(*old(state), event),
{
    match event {
        WindowEvent::CloseRequested => {
            state.termination_requested = true;
        },
        WindowEvent::ScaleFactorChanged { scale } => {
            state.scale = scale;
        },
        WindowEvent::Resized { width, height } => {
            state.surface_invalid = true;
            state.window_width = width;
            state.window_height = height;
        },
        WindowEvent::PointerMoved { x, y } => {
            state.offset_x = ndc_offset(x, state.window_width);
            state.offset_y = ndc_offset(y, state.window_height);
        },
        WindowEvent::Other => {},
    }
}

/// The render state after one polling pass has applied every drained
/// event in order.
pub open spec fn spec_drain(s: RenderState, events: Seq<WindowEvent>) -> RenderState
    decreases events.len(),
{
    if events.len() == 0 {
        s
    } else {
        spec_handle(spec_drain(s, events.drop_last()), events.last())
    }
}

/// Applies every drained event to the render state, in delivery order.
pub fn drain_events(state: &mut RenderState, events: &Vec<WindowEvent>)
    ensures
        *final(state) == spec_drain(*old(state), events@),
{
    let ghost s0 = *state;
    let mut i: usize = 0;
    while i < events.len()
        invariant
            i <= events@.len(),
            *state == spec_drain(s0, events@.take(i as int)),
        decreases events@.len() - i,
    {
        handle(events[i], state);
        proof {
            assert(events@.take(i + 1 as int).drop_last() =~= events@.take(i as int));
            assert(events@.take(i + 1 as int).last() == events@[i as int]);
        }
        i = i + 1;
    }
    proof {
        assert(events@.take(events@.len() as int) =~= events@);
    }
}

} // verus!
