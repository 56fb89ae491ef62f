//! Frame-presentation state machine for a small interactive window.
//!
//! The library owns the mutable render state of a pointer-tracking
//! crosshair window, translates window-system events into that state,
//! manages the lifecycle of the presentation surface (the swapchain)
//! across resizes and invalidation, and decides, per loop iteration,
//! what GPU work to record and submit.  All quantities that the logic
//! reads are exact: logical coordinates are integers, the display scale
//! factor and the pointer-derived draw offset are rationals, so every
//! contract pins the computed values precisely.
//!
//! Window creation, device setup and the actual GPU submission are
//! collaborators outside this library; the driver here is a state
//! machine that a thin host loop feeds with drained events and with the
//! outcomes of swapchain rebuild, image acquisition and submission.

pub mod geometry;
pub mod present;
pub mod state;
pub mod surface;
pub mod driver;
pub mod laws;
