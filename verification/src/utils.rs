//! Why a frame could not be drawn.

use vstd::prelude::*;

verus! {

/// Why the surface gave no texture to draw the next frame into.
pub enum SurfaceError {
    /// Acquiring the texture timed out; try the next frame.
    Timeout,
    /// The surface was lost and has to be recreated.
    Lost,
    /// The window is hidden; try again once it is visible.
    Occluded,
    /// The surface changed and has to be configured again.
    Outdated,
    /// A validation error was raised while acquiring the texture.
    Validation,
}

/// What `Renderer::render` reports for a failure to acquire the frame's
/// texture: a lost surface is reported as outdated, since configuring the
/// surface again is the answer to both; the other failures as they are.
pub open spec fn reported_error(e: SurfaceError) -> SurfaceError {
    match e {
        SurfaceError::Lost => SurfaceError::Outdated,
        _ => e,
    }
}

/// Computes `reported_error`.
pub fn frame_error(e: SurfaceError) -> (reported: SurfaceError)
    ensures
        reported == reported_error(e),
{
    match e {
        SurfaceError::Lost | SurfaceError::Outdated => SurfaceError::Outdated,
        SurfaceError::Timeout => SurfaceError::Timeout,
        SurfaceError::Occluded => SurfaceError::Occluded,
        SurfaceError::Validation => SurfaceError::Validation,
    }
}

/// The index of the surface format to render into, given for each format
/// the surface offers whether it is an sRGB format: the first one that is
/// not, or the first one when all are.
pub fn choose_surface_format(is_srgb: &[bool]) -> (chosen: usize)
    requires
        is_srgb.len() > 0,
    ensures
        chosen < is_srgb.len(),
        forall|i: int| 0 <= i < chosen ==> #[trigger] is_srgb@[i],
        !is_srgb@[chosen as int] || (chosen == 0 && forall|i: int| 0 <= i < is_srgb.len() ==> #[trigger] is_srgb@[i]),
{
    let mut i: usize = 0;
    while i < is_srgb.len()
        invariant
            i <= is_srgb.len(),
            forall|j: int| 0 <= j < i ==> #[trigger] is_srgb@[j],
        decreases is_srgb.len() - i,
    {
        if !is_srgb[i] {
            return i;
        }
        i = i + 1;
    }
    0
}

} // verus!
