//! Pixel layouts that raw buffers handed to the encoder may have.

use vstd::prelude::*;

verus! {

/// How the bytes of one pixel are laid out: 8 bits per channel.
#[derive(Clone, Copy, Debug, PartialEq, Eq, Structural)]
pub enum PixelLayout {
    /// One luminance byte.
    Gray,
    /// Luminance, then alpha.
    GrayAlpha,
    /// Red, green, blue.
    Rgb,
    /// Red, green, blue, alpha.
    Rgba,
}

/// The layout that a color type code names, if any.
pub open spec fn layout_of_code(code: u32) -> Option<PixelLayout> {
    if code == 0 {
        Some(PixelLayout::Gray)
    } else if code == 1 {
        Some(PixelLayout::GrayAlpha)
    } else if code == 2 {
        Some(PixelLayout::Rgb)
    } else if code == 3 {
        Some(PixelLayout::Rgba)
    } else {
        None
    }
}

impl PixelLayout {
    /// Number of channels, and so of bytes, in one pixel.
    pub open spec fn channels_spec(self) -> nat {
        match self {
            PixelLayout::Gray => 1,
            PixelLayout::GrayAlpha => 2,
            PixelLayout::Rgb => 3,
            PixelLayout::Rgba => 4,
        }
    }

    /// Maps a color type code (0 gray, 1 gray and alpha, 2 RGB, 3 RGBA) to
    /// its layout; any other code has none.
    pub fn from_code(code: u32) -> (r: Option<PixelLayout>)
        ensures
            r == layout_of_code(code),
            r is Some <==> code <= 3,
    {
        match code {
            0 => Some(PixelLayout::Gray),
            1 => Some(PixelLayout::GrayAlpha),
            2 => Some(PixelLayout::Rgb),
            3 => Some(PixelLayout::Rgba),
            _ => None,
        }
    }

    /// Number of channels, and so of bytes, in one pixel.
    pub fn channels(&self) -> (r: u32)
        ensures
            r == self.channels_spec(),
            1 <= r <= 4,
    {
        match self {
            PixelLayout::Gray => 1,
            PixelLayout::GrayAlpha => 2,
            PixelLayout::Rgb => 3,
            PixelLayout::Rgba => 4,
        }
    }
}

/// Number of channels of the layout that `code` names: codes 0 to 3 give 1 to
/// 4 channels, any other code gives none.
pub fn channel_count(code: u32) -> (r: Option<u32>)
    ensures
        code <= 3 ==> r == Some((code + 1) as u32),
        code > 3 ==> r is None,
{
    match PixelLayout::from_code(code) {
        Some(layout) => Some(layout.channels()),
        None => None,
    }
}

/// The number of bytes that a `width` by `height` image in `layout` takes,
/// where that number fits in `usize`.
pub fn buffer_len(width: u32, height: u32, layout: PixelLayout) -> (r: Option<usize>)
    ensures
        match r {
            Some(n) => n == width * height * layout.channels_spec(),
            None => width * height * layout.channels_spec() > usize::MAX,
        },
{
    let pixels = (width as usize).checked_mul(height as usize);
    match pixels {
        Some(p) => {
            let c = layout.channels();
            let total = p.checked_mul(c as usize);
            total
        },
        None => {
            assert(width * height * layout.channels_spec() >= width * height) by (nonlinear_arith)
                requires layout.channels_spec() >= 1;
            None
        },
    }
}

} // verus!
