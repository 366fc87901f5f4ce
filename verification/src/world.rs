//! The library's model of the physics world: a registry of dynamic rigid
//! bodies and of colliders, with the global gravity and the chosen contact
//! model.
//!
//! The world records what the demo itself decides: which bodies and
//! colliders exist, where they were placed, and which pose each body has.
//! Advancing simulation time is the external engine's work; [`World::step`]
//! records the poses one tick of that engine produced, whatever they are.

use vstd::prelude::*;

use crate::geom::{Pose, Shape, Vec2};

verus! {

/// Surface material of a collider: friction and restitution coefficients,
/// in thousandths.
#[derive(Clone, Copy, PartialEq, Eq, Structural, Debug)]
pub struct Material {
    pub friction: i64,
    pub restitution: i64,
}

impl Default for Material {
    /// The default surface material: friction 0.5, no restitution.
    fn default() -> (m: Material)
        ensures
            m == (Material { friction: 500, restitution: 0 }),
    {
        Material { friction: 500, restitution: 0 }
    }
}

/// The contact-resolution model the world is configured with.
#[derive(Clone, Copy, PartialEq, Eq, Structural, Debug)]
pub enum ContactModel {
    /// Signorini contact with a Coulomb friction pyramid.
    SignoriniCoulombPyramid,
}

/// A handle naming a body: either the sentinel that static colliders attach
/// to, or a dynamic rigid body by its slot in the registry.
#[derive(Clone, Copy, PartialEq, Eq, Structural, Debug)]
pub enum BodyHandle {
    /// The immovable ground: not a body, only an anchor for static colliders.
    Ground,
    /// The dynamic rigid body at this slot.
    Rigid(usize),
}

/// A dynamic rigid body. Its pose is the one piece of engine state the demo
/// reads back each frame.
#[derive(Clone, Copy, PartialEq, Eq, Structural, Debug)]
pub struct RigidBody {
    pub pose: Pose,
}

impl RigidBody {
    /// Returns this body's current pose.
    pub fn position(&self) -> (p: Pose)
        ensures
            p == self.pose,
    {
        self.pose
    }
}

/// A collider: a shape with a clearance margin, attached to a parent body
/// at a local pose, with a surface material.
#[derive(Clone, Copy, PartialEq, Eq, Structural, Debug)]
pub struct Collider {
    pub margin: i64,
    pub shape: Shape,
    pub parent: BodyHandle,
    pub pose: Pose,
    pub material: Material,
}

/// The world: global gravity, the configured contact model, and the
/// registries of dynamic bodies and of colliders.
pub struct World {
    pub gravity: Vec2,
    pub contact_model: Option<ContactModel>,
    pub bodies: Vec<RigidBody>,
    pub colliders: Vec<Collider>,
}

impl World {
    /// Well-formed world: every collider's parent resolves (the sentinel, or
    /// an occupied body slot) and every body pose stays negatable.
    pub open spec fn wf(self) -> bool {
        &&& forall|i: int|
            0 <= i < self.colliders@.len() ==> ((#[trigger] self.colliders@[i]).parent matches BodyHandle::Rigid(
                b,
            ) ==> b < self.bodies@.len())
        &&& forall|i: int| 0 <= i < self.bodies@.len() ==> (#[trigger] self.bodies@[i]).pose.wf()
    }

    /// The body a handle resolves to, if any: the sentinel and empty slots
    /// resolve to nothing.
    pub open spec fn spec_rigid_body(self, handle: BodyHandle) -> Option<RigidBody> {
        match handle {
            BodyHandle::Ground => None,
            BodyHandle::Rigid(i) => if i < self.bodies@.len() {
                Some(self.bodies@[i as int])
            } else {
                None
            },
        }
    }

    /// Whether a handle may be used as a collider parent in this world.
    pub open spec fn parent_ok(self, handle: BodyHandle) -> bool {
        match handle {
            BodyHandle::Ground => true,
            BodyHandle::Rigid(i) => i < self.bodies@.len(),
        }
    }

    /// Builds an empty world: no gravity, no contact model, no bodies, no
    /// colliders.
    pub fn new() -> (w: World)
        ensures
            w.gravity == (Vec2 { x: 0, y: 0 }),
            w.contact_model is None,
            w.bodies@ == Seq::<RigidBody>::empty(),
            w.colliders@ == Seq::<Collider>::empty(),
            w.wf(),
    {
        World { gravity: Vec2 { x: 0, y: 0 }, contact_model: None, bodies: Vec::new(), colliders: Vec::new() }
    }

    /// Sets the global gravity; everything else is untouched.
    pub fn set_gravity(&mut self, gravity: Vec2)
        ensures
            final(self).gravity == gravity,
            final(self).contact_model == old(self).contact_model,
            final(self).bodies == old(self).bodies,
            final(self).colliders == old(self).colliders,
    {
        self.gravity = gravity;
    }

    /// Chooses the contact-resolution model; everything else is untouched.
    pub fn set_contact_model(&mut self, model: ContactModel)
        ensures
            final(self).contact_model == Some(model),
            final(self).gravity == old(self).gravity,
            final(self).bodies == old(self).bodies,
            final(self).colliders == old(self).colliders,
    {
        self.contact_model = Some(model);
    }

    /// Registers a dynamic rigid body at a starting pose and returns its
    /// handle, which resolves to that body from now on.
    pub fn add_rigid_body(&mut self, pose: Pose) -> (handle: BodyHandle)
        requires
            pose.wf(),
    ensures
            handle == BodyHandle::Rigid(old(self).bodies@.len() as usize),
            final(self).bodies@ == old(self).bodies@.push(RigidBody { pose }),
            final(self).gravity == old(self).gravity,
            final(self).contact_model == old(self).contact_model,
            final(self).colliders == old(self).colliders,
            final(self).spec_rigid_body(handle) == Some(RigidBody { pose }),
            old(self).wf() ==> final(self).wf(),
    {
        let slot = self.bodies.len();
        self.bodies.push(RigidBody { pose });
        BodyHandle::Rigid(slot)
    }

    /// Registers a collider on a parent body and returns its slot in the
    /// collider registry.
    pub fn add_collider(
        &mut self,
        margin: i64,
        shape: Shape,
        parent: BodyHandle,
        pose: Pose,
        material: Material,
    ) -> (slot: usize)
        requires
            old(self).parent_ok(parent),
        ensures
            slot == old(self).colliders@.len(),
            final(self).colliders@ == old(self).colliders@.push(
                Collider { margin, shape, parent, pose, material },
            ),
            final(self).gravity == old(self).gravity,
            final(self).contact_model == old(self).contact_model,
            final(self).bodies == old(self).bodies,
            old(self).wf() ==> final(self).wf(),
    {
        let slot = self.colliders.len();
        self.colliders.push(Collider { margin, shape, parent, pose, material });
        slot
    }

    /// Looks a handle up in the registry: the body it resolves to, or
    /// nothing for the ground sentinel and for unoccupied slots.
    pub fn rigid_body(&self, handle: BodyHandle) -> (body: Option<RigidBody>)
        ensures
            body == self.spec_rigid_body(handle),
    {
        match handle {
            BodyHandle::Ground => None,
            BodyHandle::Rigid(i) => if i < self.bodies.len() {
                Some(self.bodies[i])
            } else {
                None
            },
        }
    }

    /// Records the poses one engine tick produced, one per registered body
    /// in registry order. Nothing else changes: which bodies and colliders
    /// exist, gravity and the contact model all stay as they were.
    pub fn step(&mut self, new_poses: &Vec<Pose>)
        requires
            new_poses@.len() == old(self).bodies@.len(),
            forall|i: int| 0 <= i < new_poses@.len() ==> new_poses@[i].wf(),
        ensures
            final(self).bodies@.len() == old(self).bodies@.len(),
            forall|i: int|
                0 <= i < new_poses@.len() ==> final(self).bodies@[i] == (RigidBody {
                    pose: new_poses@[i],
                }),
            final(self).gravity == old(self).gravity,
            final(self).contact_model == old(self).contact_model,
            final(self).colliders == old(self).colliders,
            old(self).wf() ==> final(self).wf(),
    {
        let n = self.bodies.len();
        let mut i: usize = 0;
        while i < n
            invariant
                self.gravity == old(self).gravity,
                self.contact_model == old(self).contact_model,
                self.colliders == old(self).colliders,
                n == self.bodies@.len(),
                n == old(self).bodies@.len(),
                new_poses@.len() == n,
                forall|j: int| 0 <= j < new_poses@.len() ==> new_poses@[j].wf(),
                i <= n,
                forall|j: int|
                    0 <= j < i ==> self.bodies@[j] == (RigidBody { pose: new_poses@[j] }),
            decreases n - i,
        {
            self.bodies[i] = RigidBody { pose: new_poses[i] };
            i = i + 1;
        }
    }
}

} // verus!
