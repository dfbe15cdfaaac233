use vstd::prelude::*;

verus! {

/// Output lengths are given in this many parts of one layout unit, so that
/// halves, tenths and twentieths of a bounding box come out exact.
pub const LENGTH_PARTS: i64 = 40;

/// The layout box of a widget, in whole layout units.
#[derive(Clone, Copy, Debug, PartialEq, Eq, Structural)]
pub struct Bounds {
    pub x: i32,
    pub y: i32,
    pub w: u32,
    pub h: u32,
}

/// A colour with its opacity.
#[derive(Clone, Copy, Debug, PartialEq, Eq, Structural)]
pub struct Rgba {
    pub r: u8,
    pub g: u8,
    pub b: u8,
    pub a: u8,
}

/// A point of a drawing, in `1 / LENGTH_PARTS` of a layout unit.
#[derive(Clone, Copy, Debug, PartialEq, Eq, Structural)]
pub struct PathPoint {
    pub x: i64,
    pub y: i64,
}

} // verus!
