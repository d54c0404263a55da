//! Device controller: constraint updates sent to the camera stream.
//!
//! A constraint update is a plain value describing what the host must apply to
//! the stream's first video track. It always carries the same facing-mode and
//! frame-rate baseline that was used at acquisition, so that applying it does
//! not reset those properties; only the torch attribute varies.

use vstd::prelude::*;

verus! {

/// Frame rate requested at acquisition and repeated in every later update.
pub const BASELINE_FRAME_RATE: u32 = 10;

/// A fire-and-forget constraint update for the active camera stream.
#[derive(Clone, Copy, Debug, PartialEq, Eq, Structural)]
pub struct ConstraintUpdate {
    /// Desired state of the illumination accessory.
    pub torch: bool,
    /// Prefer the rear-facing (environment) camera.
    pub rear_facing: bool,
    /// Target frame rate, in frames per second.
    pub frame_rate: u32,
}

/// The constraints requested when the session asks for a camera stream:
/// rear-facing camera, baseline frame rate, torch initially off.
pub open spec fn spec_acquisition_constraints() -> ConstraintUpdate {
    ConstraintUpdate { torch: false, rear_facing: true, frame_rate: BASELINE_FRAME_RATE }
}

/// The update applied when the torch is switched: the requested torch state
/// plus the unchanged acquisition baseline.
pub open spec fn spec_torch_update(on: bool) -> ConstraintUpdate {
    ConstraintUpdate { torch: on, rear_facing: true, frame_rate: BASELINE_FRAME_RATE }
}

/// Builds the acquisition-time constraints.
pub fn acquisition_constraints() -> (c: ConstraintUpdate)
    ensures
        c == spec_acquisition_constraints(),
{
    ConstraintUpdate { torch: false, rear_facing: true, frame_rate: BASELINE_FRAME_RATE }
}

/// Builds the constraint update that requests the given torch state while
/// keeping the acquisition baseline.
pub fn torch_update(on: bool) -> (c: ConstraintUpdate)
    ensures
        c == spec_torch_update(on),
{
    ConstraintUpdate { torch: on, rear_facing: true, frame_rate: BASELINE_FRAME_RATE }
}

} // verus!
