//! The swapchain configuration: the negotiated presentation format, size and
//! present mode, the selection of a gamma-correct format, and the decision a
//! resize request leads to.

use vstd::prelude::*;

verus! {

/// A presentation format the surface offers, reduced to what the selection
/// logic reads: an opaque identifier and whether the format is gamma-correct
/// (sRGB).
#[derive(Clone, Copy, Debug, PartialEq, Eq, Structural)]
pub struct SurfaceFormat {
    pub id: u32,
    pub srgb: bool,
}

/// The surface configuration governing how rendered images reach the screen.
/// The present mode is carried as an opaque identifier; the format is chosen
/// once at startup and never changes.
#[derive(Clone, Copy, Debug, PartialEq, Eq, Structural)]
pub struct SwapchainConfig {
    pub format: SurfaceFormat,
    pub width: u32,
    pub height: u32,
    pub present_mode: u32,
}

/// What the driver must do after a resize request: reconfigure the surface
/// with the updated configuration, or nothing at all.
#[derive(Clone, Copy, Debug, PartialEq, Eq, Structural)]
pub enum ResizeAction {
    Reconfigure(SwapchainConfig),
    Ignore,
}

/// Whether some offered format is gamma-correct.
pub open spec fn spec_has_srgb(fs: Seq<SurfaceFormat>) -> bool {
    exists|i: int| 0 <= i < fs.len() && fs[i].srgb
}

/// The format-selection contract: `r` is the first gamma-correct format on
/// offer, or the first format on offer when none is gamma-correct.
pub open spec fn spec_format_selected(fs: Seq<SurfaceFormat>, r: SurfaceFormat) -> bool {
    if spec_has_srgb(fs) {
        exists|i: int|
            0 <= i < fs.len() && fs[i].srgb && r == fs[i] && (forall|j: int|
                0 <= j < i ==> !fs[j].srgb)
    } else {
        fs.len() > 0 && r == fs[0]
    }
}

/// Select the presentation format for the context's whole lifetime: prefer
/// the first format flagged as gamma-correct, else fall back to the first
/// available format.
pub fn select_surface_format(formats: &Vec<SurfaceFormat>) -> (r: SurfaceFormat)
    requires
        formats@.len() > 0,
    ensures
        spec_format_selected(formats@, r),
{
    let mut i: usize = 0;
    while i < formats.len()
        invariant
            i <= formats@.len(),
            forall|j: int| 0 <= j < i ==> !formats@[j].srgb,
        decreases formats@.len() - i,
    {
        let f = formats[i];
        if f.srgb {
            assert(spec_has_srgb(formats@));
            return f;
        }
        i = i + 1;
    }
    assert(!spec_has_srgb(formats@));
    formats[0]
}

} // verus!
