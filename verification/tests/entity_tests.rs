use neat::entity::{
    BuildError, Collision, Component, EntityBuilder, Iso, RemovalOp, Shape,
};
use neat::math::Vec3;
use neat::world::{BodyStatus, World};

fn unit_cube(mesh: u32) -> Component {
    Component::new(Shape::Cuboid { half_extents: Vec3::xyz(500, 500, 500) }, mesh)
}

#[test]
fn builder_accumulates_components() {
    let b = EntityBuilder::new(1000, 900, 100)
        .component(unit_cube(1))
        .component(unit_cube(2))
        .pos(Vec3::xyz(1000, 0, 0))
        .box_collision();
    assert_eq!(b.components.len(), 2);
    assert_eq!(b.collision, Collision::Box);
    assert_eq!(b.density, Some(1000));
    let s = EntityBuilder::new_static(300, 700).compound_collision();
    assert_eq!(s.density, None);
    assert_eq!(s.collision, Collision::Compound);
}

#[test]
fn add_fixed_records_a_joint() {
    let mut b = EntityBuilder::new(1000, 900, 100).component(unit_cube(1));
    let id = b.add_fixed(0, Vec3::xyz(0, 500, 0), unit_cube(2), Vec3::xyz(0, -500, 0));
    assert_eq!(id, 1);
    assert_eq!(b.components.len(), 2);
    assert_eq!(b.joints.len(), 1);
    assert_eq!(b.joints[0].a, 0);
    assert_eq!(b.joints[0].b, 1);
}

#[test]
fn out_of_range_parent_is_an_atomic_failure() {
    let mut b = EntityBuilder::new(1000, 900, 100).component(unit_cube(1));
    let r = b.try_add_fixed(5, Vec3::new(), unit_cube(2), Vec3::new());
    assert_eq!(r, Err(BuildError::UnknownComponent));
    // the failed call must not have touched the builder
    assert_eq!(b.components.len(), 1);
    assert_eq!(b.joints.len(), 0);
}

#[test]
fn nested_joints_are_refused() {
    let mut b = EntityBuilder::new(1000, 900, 100).component(unit_cube(1));
    let child = b.try_add_fixed(0, Vec3::new(), unit_cube(2), Vec3::new()).unwrap();
    // hanging a joint off a joint child is refused, atomically
    let r = b.try_add_ball_in_socket(child, Vec3::new(), unit_cube(3), Vec3::new());
    assert_eq!(r, Err(BuildError::NestedJoint));
    assert_eq!(b.components.len(), 2);
    assert_eq!(b.joints.len(), 1);
}

#[test]
fn build_world_commits_everything() {
    let mut w = World::new();
    let mut b = EntityBuilder::new(1000, 900, 100).component(unit_cube(1));
    let _ = b.add_ball_in_socket(0, Vec3::xyz(0, 500, 0), unit_cube(2), Vec3::xyz(0, -500, 0));
    let e = b.pos(Vec3::xyz(2000, 0, 0)).vel(Vec3::xyz(0, 100, 0)).build_world(&mut w);
    assert_eq!(e.bodies.len(), 2);
    assert_eq!(e.colliders.len(), 2);
    assert_eq!(e.joints.len(), 1);
    assert_eq!(e.meshes.len(), 2);
    // a unit cube of density 1.0 weighs exactly 1.0; two of them 2.0
    assert_eq!(e.mass(), 2000);
    let root = w.rigid_body(e.body()).unwrap();
    assert_eq!(root.pos, Vec3::xyz(2000, 0, 0));
    assert_eq!(root.vel, Vec3::xyz(0, 100, 0));
    assert_eq!(root.status, BodyStatus::Dynamic);
    assert_eq!(root.mass, 1000);
    // the joint child sits at the parent position shifted by the
    // anchor offset (0, 0.5, 0) - (0, -0.5, 0) = (0, 1, 0)
    let child = w.rigid_body(e.bodies[1]).unwrap();
    assert_eq!(child.pos, Vec3::xyz(2000, 1000, 0));
    assert_eq!(child.vel, Vec3::xyz(0, 100, 0));
}

#[test]
fn ball_mass_comes_from_its_volume() {
    let mut w = World::new();
    let e = EntityBuilder::new(1000, 900, 100)
        .component(Component::new(Shape::Ball { radius: 1000 }, 1))
        .build_world(&mut w);
    // volume of the unit ball is 4.18879; mass = density * volume
    assert_eq!(e.mass(), 4189);
}

#[test]
fn removal_plan_orders_joints_before_bodies() {
    let mut w = World::new();
    let mut b = EntityBuilder::new(1000, 900, 100).component(unit_cube(1));
    let _ = b.add_fixed(0, Vec3::new(), unit_cube(2), Vec3::new());
    let e = b.build_world(&mut w);
    let plan = e.removal_plan();
    assert_eq!(plan.len(), 5);
    assert!(matches!(plan[0], RemovalOp::RemoveJoint(_)));
    assert!(matches!(plan[1], RemovalOp::RemoveCollider(_)));
    assert!(matches!(plan[2], RemovalOp::RemoveCollider(_)));
    assert!(matches!(plan[3], RemovalOp::RemoveBody(_)));
    assert!(matches!(plan[4], RemovalOp::RemoveBody(_)));
    // every joint removal stands strictly before every body removal
    for (i, op) in plan.iter().enumerate() {
        if matches!(op, RemovalOp::RemoveJoint(_)) {
            for later in &plan[..i] {
                assert!(!matches!(later, RemovalOp::RemoveBody(_)));
            }
        }
    }
}

#[test]
fn remove_world_clears_the_entity() {
    let mut w = World::new();
    let keeper = EntityBuilder::new(1000, 900, 100).component(unit_cube(9)).build_world(&mut w);
    let mut b = EntityBuilder::new(1000, 900, 100).component(unit_cube(1));
    let _ = b.add_fixed(0, Vec3::new(), unit_cube(2), Vec3::new());
    let e = b.build_world(&mut w);
    e.remove_world(&mut w);
    assert!(w.rigid_body(e.bodies[0]).is_none());
    assert!(w.rigid_body(e.bodies[1]).is_none());
    // the other entity is untouched
    assert!(w.rigid_body(keeper.body()).is_some());
}

#[test]
fn render_skips_dead_bodies() {
    let mut w = World::new();
    let mut b = EntityBuilder::new(1000, 900, 100).component(unit_cube(1));
    let _ = b.add_fixed(0, Vec3::new(), unit_cube(2), Vec3::new());
    let e = b.pos(Vec3::xyz(100, 200, 300)).build_world(&mut w);
    let items = e.render(&w);
    assert_eq!(items.len(), 2);
    assert_eq!(items[0].mesh, 1);
    assert_eq!(items[0].body_pos, Vec3::xyz(100, 200, 300));
    w.remove_body(e.bodies[0]);
    let items = e.render(&w);
    assert_eq!(items.len(), 1);
    assert_eq!(items[0].mesh, 2);
}

#[test]
fn velocity_propagates_to_every_component() {
    let mut w = World::new();
    let mut b = EntityBuilder::new(1000, 900, 100).component(unit_cube(1));
    let _ = b.add_fixed(0, Vec3::new(), unit_cube(2), Vec3::new());
    let e = b.build_world(&mut w);
    e.set_vel(&mut w, Vec3::xyz(7, 8, 9));
    assert_eq!(w.rigid_body(e.bodies[0]).unwrap().vel, Vec3::xyz(7, 8, 9));
    assert_eq!(w.rigid_body(e.bodies[1]).unwrap().vel, Vec3::xyz(7, 8, 9));
    // position and rotation only touch the root
    e.set_pos(&mut w, Vec3::xyz(1, 1, 1));
    e.set_rot(&mut w, Vec3::xyz(2, 2, 2));
    e.set_ang_vel(&mut w, Vec3::xyz(3, 3, 3));
    assert_eq!(w.rigid_body(e.bodies[0]).unwrap().pos, Vec3::xyz(1, 1, 1));
    assert_eq!(w.rigid_body(e.bodies[1]).unwrap().pos, Vec3::xyz(0, 0, 0));
    assert_eq!(w.rigid_body(e.bodies[1]).unwrap().rot, Vec3::xyz(0, 0, 0));
    assert_eq!(w.rigid_body(e.bodies[1]).unwrap().ang_vel, Vec3::xyz(0, 0, 0));
}

#[test]
fn component_transform_helpers() {
    let c = Component::new(Shape::Ball { radius: 10 }, 4)
        .pos(Vec3::xyz(1, 2, 3))
        .rot(Vec3::xyz(4, 5, 6));
    assert_eq!(c.iso.pos, Vec3::xyz(1, 2, 3));
    assert_eq!(c.iso.rot, Vec3::xyz(4, 5, 6));
    let i = Iso::identity();
    assert_eq!(i.pos, Vec3::new());
    let c2 = Component::with_iso(i, Shape::Ball { radius: 10 }, 4);
    let c3 = Component::with_iso_handle(i, Shape::Ball { radius: 10 }, 4);
    let c4 = Component::with_handle(Shape::Ball { radius: 10 }, 4);
    assert_eq!(c2.iso.pos, Vec3::new());
    assert_eq!(c3.mesh, 4);
    assert_eq!(c4.iso.rot, Vec3::new());
}
