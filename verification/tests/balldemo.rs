use balldemo::draw::screen_transform;
use balldemo::error::{exit_code, Error};
use balldemo::geom::{Pose, Shape, Vec2};
use balldemo::state::MainState;
use balldemo::world::{BodyHandle, ContactModel, Material, RigidBody, World};

#[test]
fn setup_fills_the_world() {
    let s = MainState::new();
    assert_eq!(s.world.gravity, Vec2 { x: 0, y: -9810 });
    assert_eq!(
        s.world.contact_model,
        Some(ContactModel::SignoriniCoulombPyramid)
    );
    assert_eq!(s.world.bodies.len(), 1);
    assert_eq!(s.world.colliders.len(), 2);
    assert_eq!(s.handle, Some(BodyHandle::Rigid(0)));
}

#[test]
fn ground_collider_is_fixed() {
    let s = MainState::new();
    let g = s.world.colliders[0];
    assert_eq!(g.margin, 10);
    assert_eq!(
        g.shape,
        Shape::Cuboid {
            half_x: 999_990,
            half_y: 99_990
        }
    );
    assert_eq!(g.parent, BodyHandle::Ground);
    assert_eq!(
        g.pose,
        Pose {
            x: 0,
            y: -300_000,
            theta: -50
        }
    );
    assert_eq!(
        g.material,
        Material {
            friction: 500,
            restitution: 0
        }
    );
}

#[test]
fn ball_collider_is_fixed() {
    let s = MainState::new();
    let b = s.world.colliders[1];
    assert_eq!(b.margin, 10);
    assert_eq!(b.shape, Shape::Ball { radius: 1000 });
    assert_eq!(b.parent, BodyHandle::Rigid(0));
    assert_eq!(b.pose, Pose { x: 0, y: 0, theta: 0 });
}

#[test]
fn setup_single_handle_resolves() {
    let s = MainState::new();
    let h = s.handle.unwrap();
    assert_eq!(
        s.world.rigid_body(h),
        Some(RigidBody {
            pose: Pose { x: 0, y: 0, theta: 0 }
        })
    );
    assert_eq!(s.world.rigid_body(BodyHandle::Ground), None);
    assert_eq!(s.world.rigid_body(BodyHandle::Rigid(1)), None);
}

#[test]
fn screen_transform_flips_y_and_rotation() {
    // Pose (2.0, 3.0, 0.5) in thousandths: drawn at (2.0, -3.0), rotated -0.5.
    let d = screen_transform(Pose::new(2000, 3000, 500));
    assert_eq!(d.dest_x, 2000);
    assert_eq!(d.dest_y, -3000);
    assert_eq!(d.rotation, -500);
    assert_eq!(d.offset_x, 500);
    assert_eq!(d.offset_y, 500);
    assert_eq!(d.scale_x, 50);
    assert_eq!(d.scale_y, 50);
}

#[test]
fn screen_transform_negative_pose() {
    let d = screen_transform(Pose::new(-1500, -2500, -250));
    assert_eq!(d.dest_x, -1500);
    assert_eq!(d.dest_y, 2500);
    assert_eq!(d.rotation, 250);
}

#[test]
fn draw_follows_the_pose() {
    let mut s = MainState::new();
    s.step(&vec![Pose::new(2000, 3000, 500)]);
    let d = s.draw().unwrap();
    assert_eq!(d.dest_x, 2000);
    assert_eq!(d.dest_y, -3000);
    assert_eq!(d.rotation, -500);
}

#[test]
fn draw_without_handle_fails() {
    let mut s = MainState::new();
    s.handle = None;
    assert_eq!(s.draw(), Err(Error::InvalidHandle));
}

#[test]
fn draw_with_dangling_handle_fails() {
    let mut s = MainState::new();
    s.handle = Some(BodyHandle::Rigid(7));
    assert_eq!(s.draw(), Err(Error::InvalidHandle));
}

#[test]
fn exit_codes() {
    assert_eq!(exit_code(&Ok(())), 0);
    assert_eq!(exit_code(&Err(Error::AssetLoad)), 1);
    assert_eq!(exit_code(&Err(Error::WindowInit)), 1);
    assert_eq!(exit_code(&Err(Error::InvalidHandle)), 1);
    assert_eq!(exit_code(&Err(Error::DrawFailure)), 1);
}

#[test]
fn two_setups_are_independent() {
    let mut a = MainState::new();
    let b = MainState::new();
    assert_eq!(a.world.bodies, b.world.bodies);
    assert_eq!(a.world.colliders, b.world.colliders);
    assert_eq!(a.handle, b.handle);
    a.step(&vec![Pose::new(0, -123_000, 7)]);
    // The stepped world moved on ...
    assert_eq!(
        a.world.bodies[0].pose,
        Pose {
            x: 0,
            y: -123_000,
            theta: 7
        }
    );
    // ... while the other still holds the setup values.
    assert_eq!(b.world.bodies[0].pose, Pose { x: 0, y: 0, theta: 0 });
    assert_eq!(b.world.gravity, Vec2 { x: 0, y: -9810 });
}

#[test]
fn step_keeps_the_registry() {
    let mut s = MainState::new();
    s.update(&vec![Pose::new(500, -800, 30)]);
    assert_eq!(s.handle, Some(BodyHandle::Rigid(0)));
    assert_eq!(s.world.colliders.len(), 2);
    assert_eq!(s.world.bodies.len(), 1);
    assert_eq!(
        s.world.rigid_body(BodyHandle::Rigid(0)),
        Some(RigidBody {
            pose: Pose {
                x: 500,
                y: -800,
                theta: 30
            }
        })
    );
}

#[test]
fn step_updates_every_body_in_order() {
    let mut w = World::new();
    let h0 = w.add_rigid_body(Pose::new(0, 0, 0));
    let h1 = w.add_rigid_body(Pose::new(1000, 2000, 0));
    w.step(&vec![Pose::new(5, 6, 7), Pose::new(8, 9, 10)]);
    assert_eq!(
        w.rigid_body(h0),
        Some(RigidBody {
            pose: Pose { x: 5, y: 6, theta: 7 }
        })
    );
    assert_eq!(
        w.rigid_body(h1),
        Some(RigidBody {
            pose: Pose { x: 8, y: 9, theta: 10 }
        })
    );
}

#[test]
fn collider_slots_count_up() {
    let mut w = World::new();
    let h = w.add_rigid_body(Pose::new(0, 0, 0));
    let c0 = w.add_collider(
        10,
        Shape::Ball { radius: 1000 },
        BodyHandle::Ground,
        Pose::new(0, 0, 0),
        Material::default(),
    );
    let c1 = w.add_collider(
        10,
        Shape::Ball { radius: 1000 },
        h,
        Pose::new(0, 0, 0),
        Material::default(),
    );
    assert_eq!(c0, 0);
    assert_eq!(c1, 1);
    assert_eq!(w.colliders.len(), 2);
    assert_eq!(w.colliders[1].parent, h);
}

#[test]
fn empty_world_has_nothing() {
    let w = World::new();
    assert_eq!(w.bodies.len(), 0);
    assert_eq!(w.colliders.len(), 0);
    assert_eq!(w.gravity, Vec2 { x: 0, y: 0 });
    assert_eq!(w.contact_model, None);
    assert_eq!(w.rigid_body(BodyHandle::Rigid(0)), None);
}

#[test]
fn default_material() {
    let m = Material::default();
    assert_eq!(m.friction, 500);
    assert_eq!(m.restitution, 0);
}
