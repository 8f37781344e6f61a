use vstd::prelude::*;

verus! {

/// Number of fractional steps in one unit of a [`Fixed`] value.
pub const FIXED_ONE: u32 = 65536;

/// A non-negative length or scale factor, held exactly in steps of 1/65536.
#[derive(Clone, Copy, Debug, PartialEq, Eq, Structural)]
pub struct Fixed {
    pub raw: u32,
}

impl Fixed {
    /// A whole number of units.
    pub fn from_units(units: u16) -> (r: Fixed)
        ensures
            r.raw == units as int * FIXED_ONE as int,
    {
        Fixed { raw: (units as u32) * FIXED_ONE }
    }
}

/// The logical size of a layer's bounds, in points.
#[derive(Clone, Copy, Debug, PartialEq, Eq, Structural)]
pub struct LogicalSize {
    pub width: Fixed,
    pub height: Fixed,
}

/// A size in physical pixels, with a depth or array-layer count.
#[derive(Clone, Copy, Debug, PartialEq, Eq, Structural)]
pub struct Extent3d {
    pub width: u32,
    pub height: u32,
    pub depth_or_array_layers: u32,
}

impl Extent3d {
    /// The extent of an unconfigured surface: one pixel, one layer.
    pub fn unit() -> (r: Extent3d)
        ensures
            r == (Extent3d { width: 1, height: 1, depth_or_array_layers: 1 }),
    {
        Extent3d { width: 1, height: 1, depth_or_array_layers: 1 }
    }
}

/// The size of the region a copy from an acquired texture may cover.
#[derive(Clone, Copy, Debug, PartialEq, Eq, Structural)]
pub struct CopyExtent {
    pub width: u32,
    pub height: u32,
    pub depth: u32,
}

/// `floor(length * scale)`, in whole pixels, for two fixed-point values.
pub open spec fn scaled_pixels(length: Fixed, scale: Fixed) -> int {
    (length.raw as int * scale.raw as int) / (FIXED_ONE as int * FIXED_ONE as int)
}

/// The physical extent of a layer: `floor(bounds * scale)` on each axis, depth 1.
pub open spec fn physical_extent_spec(bounds: LogicalSize, scale: Fixed) -> Extent3d {
    Extent3d {
        width: scaled_pixels(bounds.width, scale) as u32,
        height: scaled_pixels(bounds.height, scale) as u32,
        depth_or_array_layers: 1,
    }
}

fn scale_axis(length: Fixed, scale: Fixed) -> (r: u32)
    ensures
        r as int == scaled_pixels(length, scale),
{
    let a = length.raw as u64;
    let b = scale.raw as u64;
    assert(a * b < 0x1_0000_0000 * 0x1_0000_0000) by (nonlinear_arith)
        requires
            a < 0x1_0000_0000,
            b < 0x1_0000_0000,
    ;
    let p = a * b;
    let q = p / 0x1_0000_0000;
    assert(q < 0x1_0000_0000) by (nonlinear_arith)
        requires
            p < 0x1_0000_0000 * 0x1_0000_0000,
            q == p / 0x1_0000_0000,
    ;
    q as u32
}

/// The size in physical pixels of a layer with the given bounds and contents
/// scale: each axis is the product rounded down, and the depth is 1.
pub fn physical_extent(bounds: LogicalSize, scale: Fixed) -> (r: Extent3d)
    ensures
        r == physical_extent_spec(bounds, scale),
        r.width as int == scaled_pixels(bounds.width, scale),
        r.height as int == scaled_pixels(bounds.height, scale),
        r.depth_or_array_layers == 1,
{
    Extent3d {
        width: scale_axis(bounds.width, scale),
        height: scale_axis(bounds.height, scale),
        depth_or_array_layers: 1,
    }
}

} // verus!
