//! When the GPU surface a window presents on must be configured again.

use vstd::prelude::*;

verus! {

/// The size a GPU surface was last configured with; 0 x 0 before the first time.
pub struct SurfaceExtent {
    pub width: u32,
    pub height: u32,
}

/// A configured side length: at least 1.
pub open spec fn configured_side(v: u32) -> u32 {
    if v < 1 { 1 } else { v }
}

/// For a surface configured at `current`, asked to show `width` x `height`:
/// what to configure (`None` for nothing) and the size it then has.
pub open spec fn configure_step(current: (u32, u32), width: u32, height: u32) -> (Option<(u32, u32)>, (u32, u32)) {
    if current.0 == width && current.1 == height && width > 0 && height > 0 {
        (None, current)
    } else {
        let next = (configured_side(width), configured_side(height));
        (Some(next), next)
    }
}

impl SurfaceExtent {
    /// A surface that was never configured.
    pub fn new() -> (s: Self)
        ensures
            s.width == 0,
            s.height == 0,
    {
        SurfaceExtent { width: 0, height: 0 }
    }

    /// Asked to show a `width` x `height` frame: where the surface already has
    /// that size (both sides positive) nothing is to be done and `None` comes
    /// back; otherwise the size to configure, each side at least 1, is recorded
    /// and returned.
    pub fn configure(&mut self, width: u32, height: u32) -> (r: Option<(u32, u32)>)
        ensures
            (r, (final(self).width, final(self).height)) == configure_step(
                (old(self).width, old(self).height),
                width,
                height,
            ),
    {
        if self.width == width && self.height == height && width > 0 && height > 0 {
            return None;
        }
        self.width = if width < 1 { 1 } else { width };
        self.height = if height < 1 { 1 } else { height };
        Some((self.width, self.height))
    }
}

/// Showing frames of one positive size configures the surface at most once:
/// the second request for the same size asks for nothing.
pub proof fn lemma_configure_once_per_size(current: (u32, u32), width: u32, height: u32)
    requires
        width > 0,
        height > 0,
    ensures
        configure_step(configure_step(current, width, height).1, width, height).0 is None,
        configure_step(current, width, height).1 == (width, height),
{
}

/// A configured surface never has a side of 0.
pub proof fn lemma_configured_sides_positive(current: (u32, u32), width: u32, height: u32)
    requires
        configure_step(current, width, height).0 is Some,
    ensures
        configure_step(current, width, height).1.0 >= 1,
        configure_step(current, width, height).1.1 >= 1,
{
}

} // verus!
