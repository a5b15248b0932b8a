use neat::math::Vec3;
use neat::world::{Body, BodyStatus, Collider, Joint, JointKind, World};

#[test]
fn add_and_look_up_bodies() {
    let mut w = World::new();
    let b = Body::dynamic_at(Vec3::xyz(1000, 0, 0), 2000);
    let h = w.add_body(b);
    assert_eq!(h, 0);
    let got = w.rigid_body(h).unwrap();
    assert_eq!(got.pos, Vec3::xyz(1000, 0, 0));
    assert_eq!(got.mass, 2000);
    assert_eq!(got.status, BodyStatus::Dynamic);
    assert!(w.rigid_body(7).is_none());
}

#[test]
fn removed_handles_stay_dead() {
    let mut w = World::new();
    let h0 = w.add_body(Body::dynamic_at(Vec3::new(), 1000));
    w.remove_body(h0);
    assert!(w.rigid_body(h0).is_none());
    // a later body gets a fresh slot, not the dead handle
    let h1 = w.add_body(Body::static_at(Vec3::new()));
    assert_ne!(h0, h1);
    assert!(w.rigid_body(h0).is_none());
    assert!(w.rigid_body(h1).is_some());
}

#[test]
fn constant_gravity_integration() {
    let mut w = World::new();
    let h = w.add_body(Body::dynamic_at(Vec3::new(), 1000));
    w.set_gravity(Vec3::xyz(0, -9810, 0));
    w.set_timestep(1_000_000_000);
    w.step();
    let b = w.rigid_body(h).unwrap();
    // dv = g * dt / 1e9; dp = v' * dt / 1e9
    assert_eq!(b.vel, Vec3::xyz(0, -9810, 0));
    assert_eq!(b.pos, Vec3::xyz(0, -9810, 0));
    w.step();
    let b = w.rigid_body(h).unwrap();
    assert_eq!(b.vel, Vec3::xyz(0, -19620, 0));
    assert_eq!(b.pos, Vec3::xyz(0, -29430, 0));
}

#[test]
fn forces_integrate_and_clear() {
    let mut w = World::new();
    let h = w.add_body(Body::dynamic_at(Vec3::new(), 1000));
    w.apply_force(h, Vec3::xyz(1_000_000, 0, 0));
    w.set_timestep(1_000_000_000);
    w.step();
    let b = w.rigid_body(h).unwrap();
    // dv = f * dt / (m * 1e6) = 1e6 * 1e9 / (1000 * 1e6)
    assert_eq!(b.vel.x, 1_000_000);
    assert_eq!(b.force, Vec3::new());
    // the force was cleared, so the velocity stays put
    w.step();
    let b = w.rigid_body(h).unwrap();
    assert_eq!(b.vel.x, 1_000_000);
}

#[test]
fn static_bodies_do_not_move() {
    let mut w = World::new();
    let h = w.add_body(Body::static_at(Vec3::xyz(5, 5, 5)));
    w.set_gravity(Vec3::xyz(0, -9810, 0));
    w.set_timestep(1_000_000_000);
    w.apply_force(h, Vec3::xyz(1_000_000, 0, 0));
    w.step();
    let b = w.rigid_body(h).unwrap();
    assert_eq!(b.pos, Vec3::xyz(5, 5, 5));
    assert_eq!(b.vel, Vec3::new());
    assert_eq!(b.force, Vec3::new());
}

#[test]
fn rotation_follows_angular_velocity() {
    let mut w = World::new();
    let mut b = Body::dynamic_at(Vec3::new(), 1000);
    b.ang_vel = Vec3::xyz(2000, 0, 0);
    let h = w.add_body(b);
    w.set_timestep(500_000_000);
    w.step();
    let b = w.rigid_body(h).unwrap();
    assert_eq!(b.rot, Vec3::xyz(1000, 0, 0));
    assert_eq!(b.ang_vel, Vec3::xyz(2000, 0, 0));
}

#[test]
fn joints_and_colliders_live_in_their_arenas() {
    let mut w = World::new();
    let ha = w.add_body(Body::dynamic_at(Vec3::new(), 1000));
    let hb = w.add_body(Body::dynamic_at(Vec3::xyz(1000, 0, 0), 1000));
    let c = w.add_collider(Collider { body: ha, restitution: 900, friction: 100 });
    let j = w.add_joint(
        Joint {
            kind: JointKind::Fixed,
            body_a: ha,
            anchor_a: Vec3::new(),
            body_b: hb,
            anchor_b: Vec3::new(),
        },
    );
    assert_eq!(c, 0);
    assert_eq!(j, 0);
    w.remove_joint(j);
    w.remove_collider(c);
    assert!(w.rigid_body(ha).is_some());
    assert!(w.rigid_body(hb).is_some());
}
