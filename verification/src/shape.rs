//! Shape kinds and the draw requests a scene is made of.

use vstd::prelude::*;

verus! {

/// The closed set of shapes the renderer can draw. Both are drawn from the
/// same unit quad; they differ only in what the fragment stage keeps.
#[derive(Clone, Copy, Debug, PartialEq, Eq, Structural)]
pub enum ShapeKind {
    Rectangle,
    Ellipse,
}

impl ShapeKind {
    /// Position of the kind in any table that holds one entry per kind.
    pub open spec fn slot(self) -> int {
        match self {
            ShapeKind::Rectangle => 0,
            ShapeKind::Ellipse => 1,
        }
    }

    /// Index of this kind's entry in a per-kind table.
    pub fn index(self) -> (i: usize)
        ensures
            i == self.slot(),
            i < 2,
    {
        match self {
            ShapeKind::Rectangle => 0,
            ShapeKind::Ellipse => 1,
        }
    }
}

/// A single-precision number, carried by its IEEE 754 binary32 encoding.
///
/// The library never computes with such numbers: it takes them from a draw
/// request and hands them, bit for bit, to whoever uploads the transform.
#[derive(Clone, Copy, Debug, PartialEq, Eq, Structural)]
pub struct Scalar {
    pub bits: u32,
}

/// Encoding of 0.
pub const ZERO: u32 = 0x0000_0000;

/// Encoding of 1/4.
pub const QUARTER: u32 = 0x3E80_0000;

/// Encoding of 1/2.
pub const HALF: u32 = 0x3F00_0000;

/// Encoding of 3/4.
pub const THREE_QUARTERS: u32 = 0x3F40_0000;

/// Encoding of the single-precision number nearest to a quarter turn, in radians.
pub const QUARTER_TURN: u32 = 0x3FC9_0FDB;

/// Encoding of the single-precision number nearest to a half turn, in radians.
pub const HALF_TURN: u32 = 0x4049_0FDB;

impl Scalar {
    /// The number with the given encoding.
    pub fn from_bits(bits: u32) -> (s: Scalar)
        ensures
            s.bits == bits,
    {
        Scalar { bits }
    }

    /// The encoding of the number.
    pub fn to_bits(self) -> (bits: u32)
        ensures
            bits == self.bits,
    {
        self.bits
    }
}

/// Where a shape stands in the scene: centre, half extents along its own axes,
/// and rotation about the axis that points out of the screen, in radians.
#[derive(Clone, Copy, Debug, PartialEq, Eq, Structural)]
pub struct Placement {
    pub x: Scalar,
    pub y: Scalar,
    pub w: Scalar,
    pub h: Scalar,
    pub rotation: Scalar,
}

/// One shape to draw. A request is a value: the scene makes it afresh for each
/// frame and the renderer consumes it at once.
#[derive(Clone, Copy, Debug, PartialEq, Eq, Structural)]
pub struct ShapeRequest {
    pub kind: ShapeKind,
    pub placement: Placement,
}

impl ShapeRequest {
    /// A rectangle at the given placement.
    pub fn rectangle(placement: Placement) -> (r: ShapeRequest)
        ensures
            r == (ShapeRequest { kind: ShapeKind::Rectangle, placement }),
    {
        ShapeRequest { kind: ShapeKind::Rectangle, placement }
    }

    /// An ellipse inscribed in the quad at the given placement.
    pub fn ellipse(placement: Placement) -> (r: ShapeRequest)
        ensures
            r == (ShapeRequest { kind: ShapeKind::Ellipse, placement }),
    {
        ShapeRequest { kind: ShapeKind::Ellipse, placement }
    }
}

} // verus!
