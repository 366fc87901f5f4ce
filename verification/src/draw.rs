//! The world-to-screen draw transform.
//!
//! Screen y grows downward while world y grows upward, so drawing a pose
//! flips the vertical position and negates the rotation; the sprite is
//! anchored at its own midpoint and drawn at a fixed uniform scale.

use vstd::prelude::*;

use crate::geom::Pose;
use crate::{DRAW_OFFSET, DRAW_SCALE};

verus! {

/// The screen-space parameters of one sprite draw call: destination,
/// rotation, anchor offset and scale, all in thousandths.
#[derive(Clone, Copy, PartialEq, Eq, Structural, Debug)]
pub struct DrawParam {
    pub dest_x: i64,
    pub dest_y: i64,
    pub rotation: i64,
    pub offset_x: i64,
    pub offset_y: i64,
    pub scale_x: i64,
    pub scale_y: i64,
}

/// What drawing a pose emits: position (x, -y), rotation -theta, the fixed
/// midpoint anchor and the fixed uniform scale.
pub open spec fn spec_screen_transform(pose: Pose) -> DrawParam {
    DrawParam {
        dest_x: pose.x,
        dest_y: (0 - pose.y) as i64,
        rotation: (0 - pose.theta) as i64,
        offset_x: DRAW_OFFSET,
        offset_y: DRAW_OFFSET,
        scale_x: DRAW_SCALE,
        scale_y: DRAW_SCALE,
    }
}

/// Maps a body pose to its draw call's screen transform. A pure function of
/// the pose: the destination is (x, -y), the rotation is -theta, anchor and
/// scale are the fixed constants.
pub fn screen_transform(pose: Pose) -> (d: DrawParam)
    requires
        pose.wf(),
    ensures
        d == spec_screen_transform(pose),
        d.dest_x == pose.x,
        d.dest_y == -(pose.y as int),
        d.rotation == -(pose.theta as int),
        d.offset_x == DRAW_OFFSET && d.offset_y == DRAW_OFFSET,
        d.scale_x == DRAW_SCALE && d.scale_y == DRAW_SCALE,
{
    DrawParam {
        dest_x: pose.x,
        dest_y: -pose.y,
        rotation: -pose.theta,
        offset_x: DRAW_OFFSET,
        offset_y: DRAW_OFFSET,
        scale_x: DRAW_SCALE,
        scale_y: DRAW_SCALE,
    }
}

} // verus!
