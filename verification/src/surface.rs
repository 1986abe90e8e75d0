use vstd::prelude::*;

verus! {

/// The presentation configuration of the drawable surface. The format is
/// carried as the index of the chosen entry in the adapter's capability
/// list — the first supported entry at startup — which the host maps back
/// to its concrete texture format.
#[derive(Clone, Copy, PartialEq, Eq, Structural, Debug)]
pub struct SurfaceConfig {
    pub width: u32,
    pub height: u32,
    pub format: u32,
}

/// A window dimension as applied to the surface: physical window sizes may
/// be zero, but a degenerate surface must never be configured, so every
/// applied dimension is at least one.
pub open spec fn spec_clamp_dim(x: u32) -> u32 {
    if x >= 1 {
        x
    } else {
        1
    }
}

/// Clamps one dimension to at least one pixel.
pub fn clamp_dim(x: u32) -> (y: u32)
    ensures
        y == spec_clamp_dim(x),
{
    if x >= 1 {
        x
    } else {
        1
    }
}

/// The configuration after a resize to (w, h): both dimensions clamped,
/// format unchanged.
pub open spec fn spec_reconfigured(c: SurfaceConfig, w: u32, h: u32) -> SurfaceConfig {
    SurfaceConfig { width: spec_clamp_dim(w), height: spec_clamp_dim(h), format: c.format }
}

impl SurfaceConfig {
    /// Both dimensions are at least one.
    pub open spec fn valid(self) -> bool {
        self.width >= 1 && self.height >= 1
    }

    /// The startup configuration: the chosen format at the window's
    /// physical size, clamped.
    pub fn new(format: u32, width: u32, height: u32) -> (c: SurfaceConfig)
        ensures
            c.width == spec_clamp_dim(width),
            c.height == spec_clamp_dim(height),
            c.format == format,
            c.valid(),
    {
        SurfaceConfig { width: clamp_dim(width), height: clamp_dim(height), format }
    }

    /// Applies a resize: clamps both dimensions and keeps the format. The
    /// host must reapply the configuration to the surface before the next
    /// acquire/present cycle.
    pub fn reconfigure(&mut self, width: u32, height: u32)
        ensures
            *final(self) == spec_reconfigured(*old(self), width, height),
            final(self).valid(),
    {
        self.width = clamp_dim(width);
        self.height = clamp_dim(height);
    }
}

/// Reconfiguring twice with the same size yields the configuration that one
/// reconfiguration yields.
pub proof fn lemma_reconfigure_idempotent(c: SurfaceConfig, w: u32, h: u32)
    ensures
        spec_reconfigured(spec_reconfigured(c, w, h), w, h) == spec_reconfigured(c, w, h),
{
}

/// After reconfiguring to (w, h) the surface extent — and with it the extent
/// of the next image acquired from the surface — is exactly the clamped
/// size, and never degenerate.
pub proof fn lemma_reconfigured_extent(c: SurfaceConfig, w: u32, h: u32)
    ensures
        spec_reconfigured(c, w, h).width == spec_clamp_dim(w),
        spec_reconfigured(c, w, h).height == spec_clamp_dim(h),
        spec_reconfigured(c, w, h).valid(),
{
}

} // verus!
