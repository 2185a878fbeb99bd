//! Pixel density, as a JFIF header records it.
use vstd::prelude::*;

verus! {

#[derive(Copy, Clone, Debug, PartialEq, Eq, Structural)]
pub enum PixelDensityUnit {
    /// No units
    PixelAspectRatio,
    /// Pixels per inch
    Inches,
    /// Pixels per centimeter
    Centimeters,
}

impl PixelDensityUnit {
    /// The number that a JFIF header stores for the unit.
    pub open spec fn spec_code(self) -> u8 {
        match self {
            PixelDensityUnit::PixelAspectRatio => 0,
            PixelDensityUnit::Inches => 1,
            PixelDensityUnit::Centimeters => 2,
        }
    }

    /// The number that a JFIF header stores for the unit.
    pub fn code(self) -> (code: u8)
        ensures
            code == self.spec_code(),
    {
        match self {
            PixelDensityUnit::PixelAspectRatio => 0,
            PixelDensityUnit::Inches => 1,
            PixelDensityUnit::Centimeters => 2,
        }
    }
}

pub struct PixelDensity {
    pub unit: PixelDensityUnit,
    pub x: u16,
    pub y: u16,
}

impl Default for PixelDensity {
    /// Square pixels, with no physical unit.
    fn default() -> (density: Self)
        ensures
            density.unit == PixelDensityUnit::PixelAspectRatio,
            density.x == 1,
            density.y == 1,
    {
        PixelDensity { unit: PixelDensityUnit::PixelAspectRatio, x: 1, y: 1 }
    }
}

} // verus!
