//! Choices made once, while the overlay starts: the surface's format and
//! alpha mode, the pace of the capture, and the window's extended style.

use vstd::prelude::*;

verus! {

/// How a presentation surface blends with what lies behind it.
#[derive(Clone, Copy, Debug, PartialEq, Eq, Structural)]
pub enum AlphaMode {
    /// The surface picks for itself.
    Auto,
    /// Alpha is ignored.
    Opaque,
    /// Colours come multiplied by their alpha.
    PreMultiplied,
    /// Colours are multiplied by their alpha on composition.
    PostMultiplied,
    /// The window system decides.
    Inherit,
}

/// Frames the presentation queue may hold: one, the lowest latency.
pub const MAX_FRAME_LATENCY: u32 = 1;

/// Extended style bit of a layered window.
pub const EX_STYLE_LAYERED: isize = 0x0008_0000;

/// Extended style bit of a window that lets input pass through.
pub const EX_STYLE_TRANSPARENT: isize = 0x0000_0020;

/// Extended style bit of a window that stays above all others.
pub const EX_STYLE_TOPMOST: isize = 0x0000_0008;

/// Extended style bit of a window that is left out of the task switcher.
pub const EX_STYLE_TOOLWINDOW: isize = 0x0000_0080;

/// All extended style bits of the overlay window.
pub const EX_STYLE_OVERLAY: isize = 0x0008_00a8;

/// Nanoseconds in a second.
pub const NANOS_PER_SECOND: u64 = 1_000_000_000;

/// `index` is the position of the first sRGB format among the offered
/// ones, where `srgb` says of each offered format, in order, whether it is
/// an sRGB format.
pub open spec fn is_first_srgb(srgb: Seq<bool>, index: int) -> bool {
    &&& 0 <= index < srgb.len()
    &&& srgb[index]
    &&& forall|earlier: int| 0 <= earlier < index ==> !srgb[earlier]
}

/// None of the offered formats is an sRGB format.
pub open spec fn offers_no_srgb(srgb: Seq<bool>) -> bool {
    forall|i: int| 0 <= i < srgb.len() ==> !srgb[i]
}

/// Picks the surface format by its position among the offered ones: the
/// first sRGB format, or the first format of all if none is sRGB.
pub fn pick_surface_format(srgb: &[bool]) -> (index: usize)
    requires
        srgb@.len() > 0,
    ensures
        index < srgb@.len(),
        is_first_srgb(srgb@, index as int) || (index == 0 && offers_no_srgb(srgb@)),
{
    let mut i: usize = 0;
    while i < srgb.len()
        invariant
            i <= srgb@.len(),
            forall|earlier: int| 0 <= earlier < i ==> !srgb@[earlier],
        decreases srgb@.len() - i,
    {
        if srgb[i] {
            return i;
        }
        i = i + 1;
    }
    0
}

/// The alpha mode to composite with: premultiplied where the surface
/// offers it, so that the overlay blends over the desktop, and the surface's
/// own choice otherwise.
pub open spec fn preferred_alpha_mode(modes: Seq<AlphaMode>) -> AlphaMode {
    if modes.contains(AlphaMode::PreMultiplied) {
        AlphaMode::PreMultiplied
    } else {
        AlphaMode::Auto
    }
}

/// Picks the alpha mode among the ones the surface offers.
pub fn pick_alpha_mode(modes: &[AlphaMode]) -> (mode: AlphaMode)
    ensures
        mode == preferred_alpha_mode(modes@),
{
    let mut i: usize = 0;
    while i < modes.len()
        invariant
            i <= modes@.len(),
            forall|j: int| 0 <= j < i ==> modes@[j] != AlphaMode::PreMultiplied,
        decreases modes@.len() - i,
    {
        match modes[i] {
            AlphaMode::PreMultiplied => {
                return AlphaMode::PreMultiplied;
            },
            _ => {},
        }
        i = i + 1;
    }
    AlphaMode::Auto
}

/// The shortest time between two captured frames, in nanoseconds: one
/// refresh period of a monitor that refreshes `refresh_rate` times a second.
pub fn minimum_update_interval(refresh_rate: u32) -> (nanos: u64)
    requires
        refresh_rate > 0,
    ensures
        nanos == NANOS_PER_SECOND as int / refresh_rate as int,
{
    NANOS_PER_SECOND / (refresh_rate as u64)
}

/// The extended style of the overlay window, given the style the window
/// was created with: layered, input-transparent, topmost and hidden from the
/// task switcher, with every other bit as it was.
pub fn click_through_style(current: isize) -> (style: isize)
    ensures
        style == current | EX_STYLE_OVERLAY,
        style & EX_STYLE_LAYERED == EX_STYLE_LAYERED,
        style & EX_STYLE_TRANSPARENT == EX_STYLE_TRANSPARENT,
        style & EX_STYLE_TOPMOST == EX_STYLE_TOPMOST,
        style & EX_STYLE_TOOLWINDOW == EX_STYLE_TOOLWINDOW,
        style & !EX_STYLE_OVERLAY == current & !EX_STYLE_OVERLAY,
{
    let style = current | EX_STYLE_LAYERED | EX_STYLE_TRANSPARENT | EX_STYLE_TOPMOST
        | EX_STYLE_TOOLWINDOW;
    assert(style == current | 0x0008_00a8isize && style & 0x0008_0000isize == 0x0008_0000isize
        && style & 0x0000_0020isize == 0x0000_0020isize && style & 0x0000_0008isize
        == 0x0000_0008isize && style & 0x0000_0080isize == 0x0000_0080isize && style
        & !0x0008_00a8isize == current & !0x0008_00a8isize) by (bit_vector)
        requires
            style == (((current | 0x0008_0000isize) | 0x0000_0020isize) | 0x0000_0008isize)
                | 0x0000_0080isize,
    ;
    style
}

} // verus!
