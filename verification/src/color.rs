//! Colors for drawable primitives: plain 8-bit RGB, no alpha.

use vstd::prelude::*;

verus! {

/// An RGB color, one byte per channel.
#[derive(Clone, Copy, Debug, PartialEq, Eq, Structural)]
pub struct Rgb {
    pub r: u8,
    pub g: u8,
    pub b: u8,
}

/// Default stroke color for parametric curves.
pub open spec fn curve_default() -> Rgb {
    Rgb { r: 200, g: 100, b: 0 }
}

/// Default color for vectors.
pub open spec fn vector_default() -> Rgb {
    Rgb { r: 0, g: 150, b: 200 }
}

/// Default stroke color for polygons.
pub open spec fn polygon_stroke_default() -> Rgb {
    Rgb { r: 0, g: 0, b: 0 }
}

/// Default fill color for polygons.
pub open spec fn polygon_fill_default() -> Rgb {
    Rgb { r: 128, g: 128, b: 255 }
}

/// Default color for color pickers: white.
pub open spec fn picker_default() -> Rgb {
    Rgb { r: 255, g: 255, b: 255 }
}

/// A declared color, or `fallback` where the script supplied none.
pub open spec fn color_or(declared: Option<Rgb>, fallback: Rgb) -> Rgb {
    match declared {
        Option::Some(c) => c,
        Option::None => fallback,
    }
}

/// Resolve an optional declared color against a fallback.
pub fn resolve_color(declared: Option<Rgb>, fallback: Rgb) -> (c: Rgb)
    ensures
        c == color_or(declared, fallback),
{
    match declared {
        Option::Some(c) => c,
        Option::None => fallback,
    }
}

} // verus!
