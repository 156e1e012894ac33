//! Presentation-surface lifecycle model.
//!
//! The render surface hands out one frame per redraw and occasionally
//! fails: it can be lost (recoverable by reconfiguring at the last known
//! size), starved of memory (fatal), or transiently outdated or timed
//! out (self-healing on the next frame). This module models that
//! lifecycle: a surface is either ready or lost, reconfiguration at a
//! valid size always makes it ready, and frame acquisition succeeds
//! exactly on a ready surface. The host program mirrors these states onto
//! the real GPU surface; tests drive the model directly as a fake
//! surface.

use vstd::prelude::*;

verus! {

/// The ways acquiring a frame from the presentation surface fails.
#[derive(Clone, Copy, Debug, PartialEq, Eq, Structural)]
pub enum SurfaceError {
    /// The surface needs to be reconfigured before it can present again.
    Lost,
    /// The surface no longer matches the window; the next frame heals it.
    Outdated,
    /// No frame became available in time; the next frame heals it.
    Timeout,
    /// No memory left for a frame; the caller should terminate.
    OutOfMemory,
}

/// A token standing for one acquired frame, rendered to and then
/// presented.
#[derive(Clone, Copy, Debug, PartialEq, Eq, Structural)]
pub struct FrameHandle {}

/// The modeled state of the presentation surface: its configured pixel
/// size and whether it is ready to present.
#[derive(Clone, Copy, Debug, PartialEq, Eq, Structural)]
pub struct SurfaceState {
    pub width: u32,
    pub height: u32,
    pub ready: bool,
}

/// The surface state that a reconfiguration at the given size leaves
/// behind: ready, at that size.
pub open spec fn configured_spec(width: u32, height: u32) -> SurfaceState {
    SurfaceState { width, height, ready: true }
}

impl SurfaceState {
    /// A configured surface never has a zero dimension.
    pub open spec fn wf(self) -> bool {
        self.width > 0 && self.height > 0
    }

    /// Create the surface model, configured and ready at the given size.
    pub fn new(width: u32, height: u32) -> (s: SurfaceState)
        requires
            width > 0,
            height > 0,
        ensures
            s == configured_spec(width, height),
            s.wf(),
    {
        SurfaceState { width, height, ready: true }
    }

    /// Reconfigure the surface at the given size. Zero-area sizes are
    /// invalid for a presentation surface and are excluded here; the
    /// controller never forwards them. Reconfiguration is idempotent and
    /// always leaves the surface ready.
    pub fn configure(&mut self, width: u32, height: u32)
        requires
            width > 0,
            height > 0,
        ensures
            *final(self) == configured_spec(width, height),
            final(self).wf(),
    {
        self.width = width;
        self.height = height;
        self.ready = true;
    }

    /// Record that the surface was lost (reported by the GPU layer, or
    /// injected by a test): it keeps its size but stops presenting until
    /// it is reconfigured.
    pub fn mark_lost(&mut self)
        ensures
            *final(self) == (SurfaceState { ready: false, ..*old(self) }),
    {
        self.ready = false;
    }

    /// Attempt to hand out the next frame: succeeds exactly when the
    /// surface is ready, and reports a lost surface otherwise.
    pub fn acquire_frame(&self) -> (r: Result<FrameHandle, SurfaceError>)
        ensures
            r is Ok <==> self.ready,
            !self.ready ==> r == Err::<FrameHandle, SurfaceError>(SurfaceError::Lost),
    {
        if self.ready {
            Ok(FrameHandle {})
        } else {
            Err(SurfaceError::Lost)
        }
    }
}

/// Law (lost-surface recovery): whatever state the surface is in — in
/// particular after a loss — a reconfiguration at any valid size, such as
/// the last known one, leaves it ready, so the next frame acquisition
/// succeeds.
pub proof fn lemma_configure_recovers(width: u32, height: u32)
    requires
        width > 0,
        height > 0,
    ensures
        configured_spec(width, height).ready,
        configured_spec(width, height).wf(),
{
}

} // verus!
