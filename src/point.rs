use vstd::prelude::*;

verus! {

/// A 2-D position, each coordinate held as the bit pattern of an IEEE-754
/// single-precision number. Two positions are the same exactly when their
/// bit patterns are.
#[derive(Clone, Copy, Debug, PartialEq, Eq, Structural)]
pub struct Point {
    pub x_bits: u32,
    pub y_bits: u32,
}

impl Point {
    /// The position at the origin (both coordinates `+0.0`).
    pub fn zero() -> (r: Point)
        ensures
            r.x_bits == 0,
            r.y_bits == 0,
    {
        Point { x_bits: 0, y_bits: 0 }
    }

    /// A position from the bit patterns of its two coordinates.
    pub fn from_bits(x_bits: u32, y_bits: u32) -> (r: Point)
        ensures
            r.x_bits == x_bits,
            r.y_bits == y_bits,
    {
        Point { x_bits, y_bits }
    }
}


/// Where the pointer is during a frame in which it hovers the canvas: on the
/// screen, and mapped into canvas space.
#[derive(Clone, Copy, Debug, PartialEq, Eq, Structural)]
pub struct Hover {
    pub screen: Point,
    pub canvas: Point,
}

} // verus!
