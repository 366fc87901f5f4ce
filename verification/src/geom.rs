//! Plain 2D geometry values: vectors, poses and collision shapes.
//!
//! Coordinates and angles are fixed-point integers in thousandths of a
//! world unit (or radian), as everywhere in this crate.

use vstd::prelude::*;

verus! {

/// A 2D vector in thousandths of a unit.
#[derive(Clone, Copy, PartialEq, Eq, Structural, Debug)]
pub struct Vec2 {
    pub x: i64,
    pub y: i64,
}

/// A body's position and rotation angle: x and y in thousandths of a unit,
/// theta in thousandths of a radian.
#[derive(Clone, Copy, PartialEq, Eq, Structural, Debug)]
pub struct Pose {
    pub x: i64,
    pub y: i64,
    pub theta: i64,
}

impl Pose {
    /// A pose the demo can work with: each component can be negated
    /// without leaving the machine integers.
    pub open spec fn wf(self) -> bool {
        self.x > i64::MIN && self.y > i64::MIN && self.theta > i64::MIN
    }

    /// The pose at the origin with no rotation.
    pub open spec fn spec_identity() -> Pose {
        Pose { x: 0, y: 0, theta: 0 }
    }

    /// Builds the pose at the origin with no rotation.
    pub fn identity() -> (p: Pose)
        ensures
            p == Pose::spec_identity(),
            p.wf(),
    {
        Pose { x: 0, y: 0, theta: 0 }
    }

    /// Builds a pose from its components.
    pub fn new(x: i64, y: i64, theta: i64) -> (p: Pose)
        ensures
            p == (Pose { x, y, theta }),
    {
        Pose { x, y, theta }
    }
}

/// A collision shape: a ball of a given radius, or an axis-aligned box of
/// given half-extents, all in thousandths of a unit.
#[derive(Clone, Copy, PartialEq, Eq, Structural, Debug)]
pub enum Shape {
    Ball { radius: i64 },
    Cuboid { half_x: i64, half_y: i64 },
}

} // verus!
