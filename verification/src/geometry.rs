//! Plain geometric data on the integer grid: vectors, transforms and the
//! edges of the axis-aligned box that a transform stands for.
//!
//! Every quantity is an integer. Lengths are counted in sub-units, sixty to a
//! world unit; speeds in world units per second; time in sixtieths of a
//! second. At a speed of `v` a body therefore covers exactly `v` sub-units in
//! one sixtieth of a second, and no step of the simulation ever rounds.

use vstd::prelude::*;

verus! {

/// Lengths are counted in sub-units; this many of them make one world unit.
pub const SUBUNITS: i64 = 60;

/// The length of `n` world units, in sub-units.
pub fn units(n: i32) -> (r: i64)
    ensures
        r == n * SUBUNITS,
{
    let wide: i64 = n as i64;
    wide * SUBUNITS
}

/// A pair of coordinates: a position, a size or a velocity.
#[derive(Clone, Copy, Debug, PartialEq, Eq, Structural)]
pub struct Vector {
    pub x: i64,
    pub y: i64,
}

/// The mathematical value of a [`Vector`]: a pair of unbounded integers.
pub struct VectorView {
    pub x: int,
    pub y: int,
}

impl VectorView {
    /// Both coordinates can be held in a [`Vector`].
    pub open spec fn fits(self) -> bool {
        &&& i64::MIN <= self.x <= i64::MAX
        &&& i64::MIN <= self.y <= i64::MAX
    }
}

impl View for Vector {
    type V = VectorView;

    open spec fn view(&self) -> VectorView {
        VectorView { x: self.x as int, y: self.y as int }
    }
}

impl Vector {
    pub fn new(x: i64, y: i64) -> (v: Vector)
        ensures
            v == (Vector { x, y }),
    {
        Vector { x, y }
    }

    /// The vector of `x` by `y` world units, in sub-units.
    pub fn from_units(x: i32, y: i32) -> (v: Vector)
        ensures
            v@ == (VectorView { x: x * SUBUNITS, y: y * SUBUNITS }),
    {
        Vector { x: units(x), y: units(y) }
    }
}

/// Where a box is and how large: `translation` is its centre, `scale` its
/// width and height. The box reaches half of `scale` to either side of the
/// centre on each axis, and is never rotated.
#[derive(Clone, Copy, Debug, PartialEq, Eq, Structural)]
pub struct Transform {
    pub translation: Vector,
    pub scale: Vector,
}

/// The mathematical value of a [`Transform`].
pub struct TransformView {
    pub translation: VectorView,
    pub scale: VectorView,
}

impl View for Transform {
    type V = TransformView;

    open spec fn view(&self) -> TransformView {
        TransformView { translation: self.translation@, scale: self.scale@ }
    }
}

impl TransformView {
    pub open spec fn fits(self) -> bool {
        self.translation.fits() && self.scale.fits()
    }

    /// Twice the coordinate of the left edge. Half a scale need not be a
    /// whole number of sub-units, so edges are compared at double size.
    pub open spec fn left2(self) -> int {
        2 * self.translation.x - self.scale.x
    }

    /// Twice the coordinate of the right edge.
    pub open spec fn right2(self) -> int {
        2 * self.translation.x + self.scale.x
    }

    /// Twice the coordinate of the bottom edge.
    pub open spec fn bottom2(self) -> int {
        2 * self.translation.y - self.scale.y
    }

    /// Twice the coordinate of the top edge.
    pub open spec fn top2(self) -> int {
        2 * self.translation.y + self.scale.y
    }
}

impl Transform {
    pub fn new(translation: Vector, scale: Vector) -> (t: Transform)
        ensures
            t == (Transform { translation, scale }),
    {
        Transform { translation, scale }
    }

    pub fn left2(&self) -> (r: i128)
        ensures
            r == self@.left2(),
    {
        2 * (self.translation.x as i128) - (self.scale.x as i128)
    }

    pub fn right2(&self) -> (r: i128)
        ensures
            r == self@.right2(),
    {
        2 * (self.translation.x as i128) + (self.scale.x as i128)
    }

    pub fn bottom2(&self) -> (r: i128)
        ensures
            r == self@.bottom2(),
    {
        2 * (self.translation.y as i128) - (self.scale.y as i128)
    }

    pub fn top2(&self) -> (r: i128)
        ensures
            r == self@.top2(),
    {
        2 * (self.translation.y as i128) + (self.scale.y as i128)
    }
}

} // verus!
