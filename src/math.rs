use vstd::prelude::*;

verus! {

/// A scalar of the engine, held as the bit pattern of an IEEE-754 binary32
/// value. The joint model only stores and forwards scalars, so the bits are
/// all it needs, and copies stay bit-identical.
#[derive(Clone, Copy, Debug, PartialEq, Eq, Structural)]
pub struct Real {
    pub bits: u32,
}

impl Real {
    /// The scalar `0.0`.
    pub open spec fn spec_zero() -> Real {
        Real { bits: 0 }
    }

    /// The scalar `1.0`.
    pub open spec fn spec_one() -> Real {
        Real { bits: 0x3f80_0000 }
    }

    /// The scalar `0.0`.
    pub fn zero() -> (r: Real)
        ensures
            r == Real::spec_zero(),
    {
        Real { bits: 0 }
    }

    /// The scalar `1.0`.
    pub fn one() -> (r: Real)
        ensures
            r == Real::spec_one(),
    {
        Real { bits: 0x3f80_0000 }
    }

    /// The scalar whose binary32 encoding is `bits`.
    pub fn from_bits(bits: u32) -> (r: Real)
        ensures
            r.bits == bits,
    {
        Real { bits }
    }

    /// The binary32 encoding of this scalar.
    pub fn to_bits(self) -> (r: u32)
        ensures
            r == self.bits,
    {
        self.bits
    }
}

/// A point in a body's local frame.
#[derive(Clone, Copy, Debug, PartialEq, Eq, Structural)]
pub struct Point {
    pub x: Real,
    pub y: Real,
    pub z: Real,
}

impl Point {
    /// The point with the given coordinates.
    pub fn new(x: Real, y: Real, z: Real) -> (r: Point)
        ensures
            r == (Point { x, y, z }),
    {
        Point { x, y, z }
    }

    /// The origin of the frame.
    pub fn origin() -> (r: Point)
        ensures
            r == (Point { x: Real::spec_zero(), y: Real::spec_zero(), z: Real::spec_zero() }),
    {
        Point { x: Real::zero(), y: Real::zero(), z: Real::zero() }
    }
}

/// A direction in a body's local frame. It is meant to have unit length;
/// keeping it so is the caller's duty, and nothing here renormalizes it.
#[derive(Clone, Copy, Debug, PartialEq, Eq, Structural)]
pub struct UnitVector {
    pub x: Real,
    pub y: Real,
    pub z: Real,
}

impl UnitVector {
    /// The direction with the given components, taken as they are.
    pub fn new_unchecked(x: Real, y: Real, z: Real) -> (r: UnitVector)
        ensures
            r == (UnitVector { x, y, z }),
    {
        UnitVector { x, y, z }
    }

    /// The first axis of the frame, `(1, 0, 0)`.
    pub fn x_axis() -> (r: UnitVector)
        ensures
            r == (UnitVector { x: Real::spec_one(), y: Real::spec_zero(), z: Real::spec_zero() }),
    {
        UnitVector { x: Real::one(), y: Real::zero(), z: Real::zero() }
    }
}

} // verus!
