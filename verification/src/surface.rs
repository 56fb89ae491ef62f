use vstd::prelude::*;

use crate::geometry::Extent;
use crate::geometry::scaled_length;
use crate::geometry::spec_scaled;
use crate::present::PresentMode;
use crate::state::RenderState;

verus! {

/// What the physical presentation target currently reports: a definite
/// extent where the platform dictates one, and the least number of
/// presentable images the driver will hand out.
#[derive(Clone, Copy, Debug, PartialEq, Eq, Structural)]
pub struct SurfaceCaps {
    pub current_extent: Option<Extent>,
    pub min_image_count: u32,
}

/// One framebuffer: the binding of exactly one presentable image to the
/// fixed render pass.  Image `i` of the swapchain is bound by the
/// framebuffer with `image_index == i`.
#[derive(Clone, Copy, Debug, PartialEq, Eq, Structural)]
pub struct Framebuffer {
    pub image_index: u32,
}

/// The presentation surface: the swapchain's fixed parameters, its
/// physical extent, and one framebuffer per presentable image.  It is
/// rebuilt wholesale, never mutated in place.
#[derive(Clone, Debug, PartialEq, Eq)]
pub struct Swapchain {
    pub extent: Extent,
    pub image_count: u32,
    pub present_mode: PresentMode,
    pub framebuffers: Vec<Framebuffer>,
}

impl Swapchain {
    /// One framebuffer per image, the `i`-th bound to image `i`.
    pub open spec fn wf(self) -> bool {
        &&& self.framebuffers@.len() == self.image_count
        &&& forall|i: int|
            0 <= i < self.framebuffers@.len() ==> self.framebuffers@[i].image_index == i
    }
}

/// The outcome the device reports for one swapchain (re)creation
/// attempt.
#[derive(Clone, Copy, Debug, PartialEq, Eq, Structural)]
pub enum RebuildOutcome {
    /// A new swapchain exists, with this physical extent and this many
    /// presentable images.
    Created { extent: Extent, image_count: u32 },
    /// The requested dimensions are momentarily unsupported (e.g. a
    /// zero-area extent during a resize drag): a transient condition.
    UnsupportedDimensions,
    /// Any other creation failure: fatal.
    Failed,
}

/// An unrecoverable condition: the process terminates, no recovery
/// policy exists for driver-level errors or invariant violations.
#[derive(Clone, Copy, Debug, PartialEq, Eq, Structural)]
pub enum Fatal {
    /// Swapchain creation failed for a reason other than transient
    /// unsupported dimensions.
    SwapchainCreation,
    /// Image acquisition failed for a reason other than staleness.
    ImageAcquire,
    /// The dynamic state does not hold exactly one viewport.
    ViewportInvariant,
    /// An acquired image index does not name a framebuffer.
    FramebufferIndex,
}

/// The extent the first swapchain is built with: what the capabilities
/// dictate, or the requested fallback where they leave it free.
pub fn initial_extent(caps: &SurfaceCaps, fallback: Extent) -> (r: Extent)
    ensures
        r == match caps.current_extent {
            Some(e) => e,
            None => fallback,
        },
{
    match caps.current_extent {
        Some(e) => e,
        None => fallback,
    }
}

/// The extent a rebuild should request: the capabilities' current
/// extent where defined, else the logical window size bridged to
/// physical pixels by the display scale factor.
pub open spec fn spec_desired_extent(s: RenderState, caps: SurfaceCaps) -> Extent {
    match caps.current_extent {
        Some(e) => e,
        None => Extent {
            width: spec_scaled(s.window_width as int, s.scale) as u32,
            height: spec_scaled(s.window_height as int, s.scale) as u32,
        },
    }
}

/// Derives the target extent for a swapchain rebuild, exactly as
/// `spec_desired_extent` states.
pub fn desired_extent(state: &RenderState, caps: &SurfaceCaps) -> (r: Extent)
    requires
        state.scale.wf(),
    ensures
        r == spec_desired_extent(*state, *caps),
{
    match caps.current_extent {
        Some(e) => e,
        None => Extent {
            width: scaled_length(state.window_width, state.scale),
            height: scaled_length(state.window_height, state.scale),
        },
    }
}

/// Builds one framebuffer per presentable image, the `i`-th bound to
/// image `i`.
pub fn make_framebuffers(image_count: u32) -> (r: Vec<Framebuffer>)
    ensures
        r@.len() == image_count,
        forall|i: int| 0 <= i < image_count ==> r@[i].image_index == i,
{
    let mut framebuffers: Vec<Framebuffer> = Vec::new();
    let mut i: u32 = 0;
    while i < image_count
        invariant
            i <= image_count,
            framebuffers@.len() == i,
            forall|j: int| 0 <= j < i ==> framebuffers@[j].image_index == j,
        decreases image_count - i,
    {
        framebuffers.push(Framebuffer { image_index: i });
        i = i + 1;
    }
    framebuffers
}

/// Assembles the replacement swapchain from a successful creation: the
/// reported extent and image count, the present mode carried over
/// unchanged from the previous swapchain, and freshly built
/// framebuffers.
pub fn build_swapchain(prev: &Swapchain, extent: Extent, image_count: u32) -> (r: Swapchain)
    ensures
        r.wf(),
        r.extent == extent,
        r.image_count == image_count,
        r.present_mode == prev.present_mode,
{
    Swapchain {
        extent,
        image_count,
        present_mode: prev.present_mode,
        framebuffers: make_framebuffers(image_count),
    }
}

} // verus!
