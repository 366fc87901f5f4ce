//! Properties that hold across the library's functions, stated and proved
//! once for all inputs.

use vstd::prelude::*;

use crate::state::MainState;
use crate::world::BodyHandle;

verus! {

/// After setup exactly one dynamic body exists: the stored handle resolves
/// to a body, and it is the only handle that resolves at all.
pub proof fn lemma_setup_single_dynamic_body(s: MainState)
    requires
        s.is_initial(),
    ensures
        s.handle is Some,
        s.world.bodies@.len() == 1,
        s.handle matches Some(h) ==> s.world.spec_rigid_body(h) is Some,
        forall|h: BodyHandle| s.world.spec_rigid_body(h) is Some ==> Some(h) == s.handle,
{
    assert forall|h: BodyHandle| s.world.spec_rigid_body(h) is Some implies Some(h) == s.handle by {
        match h {
            BodyHandle::Ground => {},
            BodyHandle::Rigid(i) => {
                assert(i < 1);
            },
        }
    }
}

/// Setup is deterministic and shares nothing: any two states that setup
/// produced agree in every observable, so re-running setup yields a second,
/// independent world with the same contents. (The library keeps no
/// process-wide state at all: every value lives in the state passed around.)
pub proof fn lemma_setup_deterministic(a: MainState, b: MainState)
    requires
        a.is_initial(),
        b.is_initial(),
    ensures
        a.handle == b.handle,
        a.world.gravity == b.world.gravity,
        a.world.contact_model == b.world.contact_model,
        a.world.bodies@ == b.world.bodies@,
        a.world.colliders@ == b.world.colliders@,
{
}

/// The draw transform is a function of the ball's pose alone: two states
/// whose balls share a pose emit the same draw call.
pub proof fn lemma_draw_pure(a: MainState, b: MainState)
    requires
        a.handle matches Some(ha) && a.world.spec_rigid_body(ha) matches Some(ba)
            && b.handle matches Some(hb) && b.world.spec_rigid_body(hb) matches Some(bb)
            && ba.pose == bb.pose,
    ensures
        a.spec_draw() == b.spec_draw(),
{
}

} // verus!
