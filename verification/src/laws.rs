use vstd::prelude::*;

use crate::geometry::Extent;
use crate::geometry::Frac;
use crate::state::RenderState;
use crate::state::WindowEvent;
use crate::state::spec_drain;
use crate::state::spec_handle;
use crate::surface::Fatal;
use crate::surface::RebuildOutcome;
use crate::driver::spec_rebuild_state;

verus! {

/// What one event does to the two pending flags, exactly: a close
/// request and only a close request raises the termination flag, a
/// resize and only a resize raises the invalidity flag, and neither
/// flag is ever lowered by an event.
pub proof fn lemma_handle_flags(s: RenderState, e: WindowEvent)
    ensures
        spec_handle(s, e).termination_requested == (s.termination_requested || e
            is CloseRequested),
        spec_handle(s, e).surface_invalid == (s.surface_invalid || e matches WindowEvent::Resized {
            ..
        }),
{
}

/// Law: a pointer move at `(x, y)` in a window of nonzero logical size
/// `(w, h)` sets the draw offset to exactly the rational pair
/// `((2x - w) / w, (2y - h) / h)`, that is, `(2x/w - 1, 2y/h - 1)`.
/// At the exact center (`2x == w`, `2y == h`) the offset is `(0, 0)`;
/// at the origin it is `(-1, -1)` and at the far corner `(1, 1)`.
/// Nothing else of the state moves.
pub proof fn lemma_pointer_offset(s: RenderState, x: i64, y: i64)
    requires
        s.window_width != 0,
        s.window_height != 0,
    ensures
        ({
            let t = spec_handle(s, WindowEvent::PointerMoved { x, y });
            &&& t.offset_x.num == 2 * x - s.window_width
            &&& t.offset_x.den == s.window_width
            &&& t.offset_y.num == 2 * y - s.window_height
            &&& t.offset_y.den == s.window_height
            &&& t.offset_x.wf() && t.offset_y.wf()
            &&& (2 * x == s.window_width && 2 * y == s.window_height ==> t.offset_x.is_zero()
                && t.offset_y.is_zero())
            &&& (x == 0 ==> t.offset_x.eqv(Frac { num: -1i128, den: 1i128 }))
            &&& (x == s.window_width ==> t.offset_x.eqv(Frac { num: 1i128, den: 1i128 }))
            &&& t == RenderState { offset_x: t.offset_x, offset_y: t.offset_y, ..s }
        }),
{
}

/// Law: a resize to `(w, h)` flags the surface invalid and records the
/// new logical size; it touches neither the draw offset, the viewport,
/// the scale factor, nor the termination flag.  No draw can then occur
/// until a rebuild succeeds: see `lemma_surface_invalid_latches` (no
/// further event clears the flag) and `lemma_rebuild_transient_then_valid`
/// (while the flag stands, only a successful rebuild clears it, and a
/// transient attempt produces no frame).
pub proof fn lemma_resize_invalidates(s: RenderState, width: i64, height: i64)
    ensures
        ({
            let t = spec_handle(s, WindowEvent::Resized { width, height });
            &&& t.surface_invalid
            &&& t.window_width == width
            &&& t.window_height == height
            &&& t == RenderState {
                surface_invalid: true,
                window_width: width,
                window_height: height,
                ..s
            }
        }),
{
}

/// Law: the termination flag latches — once requested, no later event
/// of the same or any following polling pass withdraws it.
pub proof fn lemma_termination_latches(s: RenderState, events: Seq<WindowEvent>)
    requires
        s.termination_requested,
    ensures
        spec_drain(s, events).termination_requested,
    decreases events.len(),
{
    if events.len() > 0 {
        lemma_termination_latches(s, events.drop_last());
    }
}

/// Law: the invalidity flag latches across events — no event clears it;
/// only a successful rebuild does.
pub proof fn lemma_surface_invalid_latches(s: RenderState, events: Seq<WindowEvent>)
    requires
        s.surface_invalid,
    ensures
        spec_drain(s, events).surface_invalid,
    decreases events.len(),
{
    if events.len() > 0 {
        lemma_surface_invalid_latches(s, events.drop_last());
    }
}

/// Law: a close request anywhere in a polling pass leaves the drained
/// state with termination requested.  The loop then performs at most
/// one more submission: `note_submission` answers `false` and stops the
/// driver in the same iteration.
pub proof fn lemma_close_request_stops(s: RenderState, events: Seq<WindowEvent>, i: int)
    requires
        0 <= i < events.len(),
        events[i] is CloseRequested,
    ensures
        spec_drain(s, events).termination_requested,
    decreases events.len(),
{
    if i == events.len() - 1 {
        lemma_handle_flags(spec_drain(s, events.drop_last()), events.last());
    } else {
        assert(events.drop_last()[i] == events[i]);
        lemma_close_request_stops(s, events.drop_last(), i);
        lemma_handle_flags(spec_drain(s, events.drop_last()), events.last());
    }
}

/// Law: a rebuild attempt that the device reports as transiently
/// unsupported (a zero-area extent during a resize drag, say) changes
/// nothing — the surface stays invalid, no framebuffers appear, the
/// iteration produces no frame — and a following attempt that succeeds
/// clears the flag and brings the viewport to the new extent.
pub proof fn lemma_rebuild_transient_then_valid(
    s: RenderState,
    extent: Extent,
    image_count: u32,
)
    requires
        s.surface_invalid,
        s.viewport_state.wf(),
    ensures
        ({
            let (s1, r1) = spec_rebuild_state(s, RebuildOutcome::UnsupportedDimensions);
            let (s2, r2) = spec_rebuild_state(
                s1,
                RebuildOutcome::Created { extent, image_count },
            );
            &&& r1 == Ok::<bool, Fatal>(false)
            &&& s1 == s
            &&& s1.surface_invalid
            &&& r2 == Ok::<bool, Fatal>(true)
            &&& !s2.surface_invalid
            &&& s2.viewport_state.extent() == extent
        }),
{
}

/// Law: after any successful rebuild the dynamic viewport's extent
/// equals the new surface's physical extent exactly (the matching
/// swapchain side — same reported extent, fresh framebuffers — is the
/// contract of `Driver::complete_rebuild`).  Everything else of the
/// render state but the two rebuilt fields is untouched.
pub proof fn lemma_rebuild_aligns_viewport(s: RenderState, extent: Extent, image_count: u32)
    requires
        s.viewport_state.wf(),
    ensures
        ({
            let (t, r) = spec_rebuild_state(s, RebuildOutcome::Created { extent, image_count });
            &&& r == Ok::<bool, Fatal>(true)
            &&& t.viewport_state.wf()
            &&& t.viewport_state.extent() == extent
            &&& !t.surface_invalid
            &&& t == RenderState {
                surface_invalid: false,
                viewport_state: t.viewport_state,
                ..s
            }
        }),
{
}

/// Law: while the surface is invalid, a frame is produced only once a
/// rebuild has succeeded — completing a rebuild answers "proceed with
/// this iteration's frame" exactly when the device created the new
/// swapchain and the viewport invariant stood, and then the surface is
/// valid again; a transient answer leaves the state untouched and the
/// iteration frameless.
pub proof fn lemma_frame_only_after_valid_rebuild(s: RenderState, outcome: RebuildOutcome)
    ensures
        ({
            let (t, r) = spec_rebuild_state(s, outcome);
            &&& (r == Ok::<bool, Fatal>(true) <==> ((outcome matches RebuildOutcome::Created { .. })
                && s.viewport_state.wf()))
            &&& (r == Ok::<bool, Fatal>(true) ==> !t.surface_invalid)
            &&& (r == Ok::<bool, Fatal>(false) ==> t == s)
            &&& (r is Err ==> t == s)
        }),
{
}

/// Law: no event touches the dynamic viewport, so the invariant that a
/// valid surface's viewport shows exactly the swapchain's physical
/// extent survives any polling pass — the one event that could break
/// the alignment, a resize, flags the surface invalid instead.
pub proof fn lemma_events_keep_viewport_aligned(
    s: RenderState,
    surface_extent: Extent,
    events: Seq<WindowEvent>,
)
    requires
        !s.surface_invalid ==> s.viewport_state.extent() == surface_extent,
    ensures
        spec_drain(s, events).viewport_state == s.viewport_state,
        !spec_drain(s, events).surface_invalid ==> spec_drain(s, events).viewport_state.extent()
            == surface_extent,
    decreases events.len(),
{
    if events.len() > 0 {
        lemma_events_keep_viewport_aligned(s, surface_extent, events.drop_last());
        lemma_handle_flags(spec_drain(s, events.drop_last()), events.last());
    }
}

/// Law: a polling pass that drains no events leaves the render state
/// exactly as it was.  The per-iteration maintenance step (reclaiming
/// finished GPU work) lives outside the render state altogether, so an
/// idle iteration changes nothing observable of the draw state.
pub proof fn lemma_drain_no_events(s: RenderState)
    ensures
        spec_drain(s, Seq::<WindowEvent>::empty()) == s,
{
}

} // verus!
