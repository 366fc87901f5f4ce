//! A small 2D ball-drop demo, modelled and verified.
//!
//! The library holds the demo's own logic: the world registry that setup
//! fills (one tilted ground collider, one dynamic ball body), the per-frame
//! bookkeeping, the world-to-screen draw transform, and the fatal-error
//! policy. Quantities are carried as fixed-point integers in thousandths of
//! a world unit, so that the contracts can speak of them exactly. The
//! rigid-body integration itself and the window, asset and draw calls are
//! external services that the surrounding binary drives; they hand the
//! library plain values and take plain values back.

pub mod draw;
pub mod error;
pub mod geom;
pub mod laws;
pub mod state;
pub mod world;

use vstd::prelude::*;

verus! {

/// Fixed-point scale: model integers carry thousandths of a world unit.
pub const MILLIS_PER_UNIT: i64 = 1000;

/// Clearance margin shared by all colliders, 0.01 units.
pub const COLLIDER_MARGIN: i64 = 10;

/// Horizontal gravity component, 0 units per second squared.
pub const GRAVITY_X: i64 = 0;

/// Vertical gravity component, -9.81 units per second squared.
pub const GRAVITY_Y: i64 = -9810;

/// Radius of the ball shape, 1.0 units.
pub const BALL_RADIUS: i64 = 1000;

/// Ground box half-extent along x before the margin is taken off, 1000 units.
pub const GROUND_HALF_EXTENT_X: i64 = 1_000_000;

/// Ground box half-extent along y before the margin is taken off, 100 units.
pub const GROUND_HALF_EXTENT_Y: i64 = 100_000;

/// Vertical offset of the ground box, -300 units.
pub const GROUND_OFFSET_Y: i64 = -300_000;

/// Tilt of the ground box, -0.05 radians.
pub const GROUND_TILT: i64 = -50;

/// Uniform sprite scale applied when drawing, 0.05.
pub const DRAW_SCALE: i64 = 50;

/// Sprite anchor offset on each axis, 0.5 (the sprite's own midpoint).
pub const DRAW_OFFSET: i64 = 500;

} // verus!
