//! The demo's own state: the world it set up and the handle of the one
//! dynamic ball body.
//!
//! Setup fixes gravity, registers the tilted ground box as a static
//! collider, chooses the contact model, and registers the ball. Each frame
//! then records the poses the engine's tick produced and computes the draw
//! call for the ball's current pose.

use vstd::prelude::*;

use crate::draw::{screen_transform, spec_screen_transform, DrawParam};
use crate::error::Error;
use crate::geom::{Pose, Shape, Vec2};
use crate::world::{BodyHandle, Collider, ContactModel, Material, RigidBody, World};
use crate::{
    BALL_RADIUS, COLLIDER_MARGIN, GRAVITY_X, GRAVITY_Y, GROUND_HALF_EXTENT_X,
    GROUND_HALF_EXTENT_Y, GROUND_OFFSET_Y, GROUND_TILT,
};

verus! {

/// The gravity the demo configures: straight down at 9.81 units per second
/// squared.
pub open spec fn demo_gravity() -> Vec2 {
    Vec2 { x: GRAVITY_X, y: GRAVITY_Y }
}

/// The ground collider setup registers: a wide box with the clearance
/// margin taken off its half-extents, anchored to the ground sentinel well
/// below the origin with a small tilt, with the default material.
pub open spec fn ground_collider() -> Collider {
    Collider {
        margin: COLLIDER_MARGIN,
        shape: Shape::Cuboid {
            half_x: (GROUND_HALF_EXTENT_X - COLLIDER_MARGIN) as i64,
            half_y: (GROUND_HALF_EXTENT_Y - COLLIDER_MARGIN) as i64,
        },
        parent: BodyHandle::Ground,
        pose: Pose { x: 0, y: GROUND_OFFSET_Y, theta: GROUND_TILT },
        material: Material { friction: 500, restitution: 0 },
    }
}

/// The ball's collider: the ball shape at the body's own origin, with the
/// shared clearance margin and the default material.
pub open spec fn ball_collider(parent: BodyHandle) -> Collider {
    Collider {
        margin: COLLIDER_MARGIN,
        shape: Shape::Ball { radius: BALL_RADIUS },
        parent,
        pose: Pose::spec_identity(),
        material: Material { friction: 500, restitution: 0 },
    }
}

/// The demo's state: its world, and the handle of the ball body once setup
/// has stored it.
pub struct MainState {
    pub world: World,
    pub handle: Option<BodyHandle>,
}

impl MainState {
    /// Well-formed state: the world is well-formed and the stored handle,
    /// if any, resolves to a body.
    pub open spec fn wf(self) -> bool {
        &&& self.world.wf()
        &&& (self.handle matches Some(h) ==> self.world.spec_rigid_body(h) is Some)
    }

    /// The state setup produces, pinned field by field: the demo's gravity,
    /// the Signorini-Coulomb contact model, the ball as the only body at
    /// the origin, the ground collider then the ball's collider, and the
    /// ball's handle stored.
    pub open spec fn is_initial(self) -> bool {
        &&& self.world.gravity == demo_gravity()
        &&& self.world.contact_model == Some(ContactModel::SignoriniCoulombPyramid)
        &&& self.world.bodies@ == seq![RigidBody { pose: Pose::spec_identity() }]
        &&& self.world.colliders@ == seq![ground_collider(), ball_collider(BodyHandle::Rigid(0))]
        &&& self.handle == Some(BodyHandle::Rigid(0))
    }

    /// Runs setup: builds an empty world, sets gravity, adds the ground,
    /// chooses the contact model, and adds the ball. The result is exactly
    /// the initial state, well-formed.
    pub fn new() -> (s: MainState)
        ensures
            s.is_initial(),
            s.wf(),
    {
        let mut state = MainState { world: World::new(), handle: None };
        state.world.set_gravity(Vec2 { x: GRAVITY_X, y: GRAVITY_Y });
        state.add_ground();
        state.world.set_contact_model(ContactModel::SignoriniCoulombPyramid);
        state.add_character();
        proof {
            assert(state.world.bodies@ =~= seq![RigidBody { pose: Pose::spec_identity() }]);
            assert(state.world.colliders@ =~= seq![
                ground_collider(),
                ball_collider(BodyHandle::Rigid(0)),
            ]);
        }
        state
    }

    /// Registers the tilted ground box as a static collider; nothing else
    /// changes.
    pub fn add_ground(&mut self)
        ensures
            final(self).world.colliders@ == old(self).world.colliders@.push(ground_collider()),
            final(self).world.bodies == old(self).world.bodies,
            final(self).world.gravity == old(self).world.gravity,
            final(self).world.contact_model == old(self).world.contact_model,
            final(self).handle == old(self).handle,
            old(self).wf() ==> final(self).wf(),
    {
        let ground_shape = Shape::Cuboid {
            half_x: GROUND_HALF_EXTENT_X - COLLIDER_MARGIN,
            half_y: GROUND_HALF_EXTENT_Y - COLLIDER_MARGIN,
        };
        let ground_pos = Pose::new(0, GROUND_OFFSET_Y, GROUND_TILT);
        self.world.add_collider(
            COLLIDER_MARGIN,
            ground_shape,
            BodyHandle::Ground,
            ground_pos,
            Material::default(),
        );
    }

    /// Registers the ball: a dynamic body at the origin, with the ball
    /// collider attached to it, and stores the new handle.
    pub fn add_character(&mut self)
        ensures
            final(self).world.bodies@ == old(self).world.bodies@.push(
                RigidBody { pose: Pose::spec_identity() },
            ),
            final(self).handle == Some(
                BodyHandle::Rigid(old(self).world.bodies@.len() as usize),
            ),
            final(self).world.colliders@ == old(self).world.colliders@.push(
                ball_collider(BodyHandle::Rigid(old(self).world.bodies@.len() as usize)),
            ),
            final(self).world.gravity == old(self).world.gravity,
            final(self).world.contact_model == old(self).world.contact_model,
            old(self).wf() ==> final(self).wf(),
    {
        let ball = Shape::Ball { radius: BALL_RADIUS };
        let handle = self.world.add_rigid_body(Pose::identity());
        self.world.add_collider(
            COLLIDER_MARGIN,
            ball,
            handle,
            Pose::identity(),
            Material::default(),
        );
        self.handle = Some(handle);
    }

    /// Records the poses one engine tick produced, one per body in registry
    /// order. The handle, the colliders, gravity and the contact model all
    /// stay as they were.
    pub fn step(&mut self, new_poses: &Vec<Pose>)
        requires
            new_poses@.len() == old(self).world.bodies@.len(),
            forall|i: int| 0 <= i < new_poses@.len() ==> new_poses@[i].wf(),
        ensures
            final(self).world.bodies@.len() == old(self).world.bodies@.len(),
            forall|i: int|
                0 <= i < new_poses@.len() ==> final(self).world.bodies@[i] == (RigidBody {
                    pose: new_poses@[i],
                }),
            final(self).world.gravity == old(self).world.gravity,
            final(self).world.contact_model == old(self).world.contact_model,
            final(self).world.colliders == old(self).world.colliders,
            final(self).handle == old(self).handle,
            old(self).wf() ==> final(self).wf(),
    {
        self.world.step(new_poses);
    }

    /// The per-frame update: one engine tick has run; record its outcome.
    pub fn update(&mut self, new_poses: &Vec<Pose>)
        requires
            new_poses@.len() == old(self).world.bodies@.len(),
            forall|i: int| 0 <= i < new_poses@.len() ==> new_poses@[i].wf(),
        ensures
            final(self).world.bodies@.len() == old(self).world.bodies@.len(),
            forall|i: int|
                0 <= i < new_poses@.len() ==> final(self).world.bodies@[i] == (RigidBody {
                    pose: new_poses@[i],
                }),
            final(self).world.gravity == old(self).world.gravity,
            final(self).world.contact_model == old(self).world.contact_model,
            final(self).world.colliders == old(self).world.colliders,
            final(self).handle == old(self).handle,
            old(self).wf() ==> final(self).wf(),
    {
        self.step(new_poses);
    }

    /// What drawing the current frame emits: the screen transform of the
    /// ball's pose, or the invalid-handle error when no stored handle
    /// resolves to a body.
    pub open spec fn spec_draw(self) -> Result<DrawParam, Error> {
        match self.handle {
            None => Err(Error::InvalidHandle),
            Some(h) => match self.world.spec_rigid_body(h) {
                None => Err(Error::InvalidHandle),
                Some(body) => Ok(spec_screen_transform(body.pose)),
            },
        }
    }

    /// Computes the draw call for the current frame: looks the ball up by
    /// the stored handle and transforms its pose to screen coordinates.
    /// Succeeds exactly when the stored handle resolves to a body.
    pub fn draw(&self) -> (r: Result<DrawParam, Error>)
        requires
            self.world.wf(),
        ensures
            r == self.spec_draw(),
            (r is Ok) <==> (self.handle matches Some(h) && self.world.spec_rigid_body(h) is Some),
            r is Err ==> r == Err::<DrawParam, Error>(Error::InvalidHandle),
    {
        match self.handle {
            None => Err(Error::InvalidHandle),
            Some(h) => match self.world.rigid_body(h) {
                None => Err(Error::InvalidHandle),
                Some(body) => Ok(screen_transform(body.position())),
            },
        }
    }
}

} // verus!
