//! Color spaces and the number of channels in each.
use vstd::prelude::*;

verus! {

/// The color spaces that the engine knows, under the names that it gives
/// them.
#[allow(non_camel_case_types)]
#[derive(Copy, Clone, Debug, PartialEq, Eq, Structural)]
pub enum ColorSpace {
    /// error/unspecified
    JCS_UNKNOWN,
    /// monochrome
    JCS_GRAYSCALE,
    /// red/green/blue
    JCS_RGB,
    /// Y/Cb/Cr (also known as YUV)
    JCS_YCbCr,
    /// C/M/Y/K
    JCS_CMYK,
    /// Y/Cb/Cr/K
    JCS_YCCK,
    /// red/green/blue
    JCS_EXT_RGB,
    /// red/green/blue/x
    JCS_EXT_RGBX,
    /// blue/green/red
    JCS_EXT_BGR,
    /// blue/green/red/x
    JCS_EXT_BGRX,
    /// x/blue/green/red
    JCS_EXT_XBGR,
    /// x/red/green/blue
    JCS_EXT_XRGB,
    /// red/green/blue/alpha
    JCS_EXT_RGBA,
    /// blue/green/red/alpha
    JCS_EXT_BGRA,
    /// alpha/blue/green/red
    JCS_EXT_ABGR,
    /// alpha/red/green/blue
    JCS_EXT_ARGB,
    /// 5-bit red/6-bit green/5-bit blue
    JCS_RGB565,
}

/// The number of channels of a color space, unused alpha included.
pub open spec fn channel_count(space: ColorSpace) -> nat {
    match space {
        ColorSpace::JCS_UNKNOWN => 0,
        ColorSpace::JCS_GRAYSCALE => 1,
        ColorSpace::JCS_RGB
        | ColorSpace::JCS_YCbCr
        | ColorSpace::JCS_EXT_RGB
        | ColorSpace::JCS_EXT_BGR
        | ColorSpace::JCS_RGB565 => 3,
        _ => 4,
    }
}

pub trait ColorSpaceExt {
    /// The color space itself.
    spec fn space(&self) -> ColorSpace;

    /// Number of channels (including unused alpha) in this color space
    fn num_components(&self) -> (n: usize)
        ensures
            n == channel_count(self.space()),
    ;
}

impl ColorSpaceExt for ColorSpace {
    open spec fn space(&self) -> ColorSpace {
        *self
    }

    fn num_components(&self) -> (n: usize) {
        match *self {
            ColorSpace::JCS_UNKNOWN => 0,
            ColorSpace::JCS_GRAYSCALE => 1,
            ColorSpace::JCS_RGB => 3,
            ColorSpace::JCS_YCbCr => 3,
            ColorSpace::JCS_CMYK => 4,
            ColorSpace::JCS_YCCK => 4,
            ColorSpace::JCS_EXT_RGB => 3,
            ColorSpace::JCS_EXT_RGBX => 4,
            ColorSpace::JCS_EXT_BGR => 3,
            ColorSpace::JCS_EXT_BGRX => 4,
            ColorSpace::JCS_EXT_XBGR => 4,
            ColorSpace::JCS_EXT_XRGB => 4,
            ColorSpace::JCS_EXT_RGBA => 4,
            ColorSpace::JCS_EXT_BGRA => 4,
            ColorSpace::JCS_EXT_ABGR => 4,
            ColorSpace::JCS_EXT_ARGB => 4,
            ColorSpace::JCS_RGB565 => 3,
        }
    }
}

} // verus!
