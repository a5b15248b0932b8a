use neat::camera::Camera;
use neat::entity::{Component, EntityBuilder, Shape};
use neat::event::{ElementState, Event};
use neat::math::Vec3;
use neat::settings::{Settings, KEY_F3, KEY_W};
use neat::state::{GameState, Gravity};

fn unit_cube_entity(mesh: u32, pos: Vec3) -> EntityBuilder {
    EntityBuilder::new(1000, 900, 100)
        .component(Component::new(Shape::Cuboid { half_extents: Vec3::xyz(500, 500, 500) }, mesh))
        .pos(pos)
}

fn fresh_state(g: Gravity) -> GameState {
    GameState::new(Camera::new(Vec3::new()), g)
}

#[test]
fn ids_are_monotonic_and_never_reused() {
    let mut s = fresh_state(Gravity::Off);
    let a = s.add_entity(unit_cube_entity(1, Vec3::new()));
    let b = s.add_entity(unit_cube_entity(2, Vec3::xyz(3000, 0, 0)));
    assert_eq!(a, 0);
    assert_eq!(b, 1);
    let removed = s.remove_entity(a);
    assert!(removed.is_some());
    // the removed id is gone for good
    assert!(s.get_entity(a).is_none());
    assert!(s.get_entity(b).is_some());
    // a fresh entity gets a fresh id, never the removed one
    let c = s.add_entity(unit_cube_entity(3, Vec3::xyz(6000, 0, 0)));
    assert_eq!(c, 2);
    assert!(s.get_entity(a).is_none());
}

#[test]
fn removing_a_missing_id_is_a_benign_no_op() {
    let mut s = fresh_state(Gravity::Off);
    assert!(s.remove_entity(42).is_none());
    let a = s.add_entity(unit_cube_entity(1, Vec3::new()));
    assert!(s.remove_entity(a).is_some());
    assert!(s.remove_entity(a).is_none());
}

#[test]
fn entity_lookup_reaches_the_body() {
    let mut s = fresh_state(Gravity::Off);
    let a = s.add_entity(unit_cube_entity(1, Vec3::xyz(1234, 0, 0)));
    let body = s.get_entity_rigid_body(a).unwrap();
    assert_eq!(body.pos, Vec3::xyz(1234, 0, 0));
    assert_eq!(body.mass, 1000);
    assert!(s.get_entity_rigid_body(9).is_none());
}

#[test]
fn builder_build_registers_into_the_state() {
    let mut s = fresh_state(Gravity::Off);
    let id = unit_cube_entity(5, Vec3::new()).build(&mut s);
    assert_eq!(id, 0);
    assert_eq!(s.get_entity(id).unwrap().mass(), 1000);
}

#[test]
fn paused_ticks_freeze_physics() {
    let mut s = fresh_state(Gravity::Constant(Vec3::xyz(0, -9810, 0)));
    let a = s.add_entity(unit_cube_entity(1, Vec3::new()));
    let mut settings = Settings::default();
    settings.paused = true;
    let events: Vec<Event> = Vec::new();
    s.tick(8_333_333, &settings, &events, 0, 0);
    let body = s.get_entity_rigid_body(a).unwrap();
    assert_eq!(body.pos, Vec3::new());
    assert_eq!(body.vel, Vec3::new());
}

#[test]
fn constant_gravity_moves_bodies() {
    let mut s = fresh_state(Gravity::Constant(Vec3::xyz(0, -9810, 0)));
    let a = s.add_entity(unit_cube_entity(1, Vec3::new()));
    let settings = Settings::default();
    let events: Vec<Event> = Vec::new();
    s.tick(1_000_000_000, &settings, &events, 0, 0);
    let body = s.get_entity_rigid_body(a).unwrap();
    assert_eq!(body.vel, Vec3::xyz(0, -9810, 0));
    assert_eq!(body.pos, Vec3::xyz(0, -9810, 0));
}

#[test]
fn relative_gravity_attracts_both_ways() {
    let mut s = fresh_state(Gravity::Relative(1000));
    let a = s.add_entity(unit_cube_entity(1, Vec3::new()));
    let b = s.add_entity(unit_cube_entity(2, Vec3::xyz(2000, 0, 0)));
    let settings = Settings::default();
    let events: Vec<Event> = Vec::new();
    s.tick(1_000_000_000, &settings, &events, 0, 0);
    let ba = s.get_entity_rigid_body(a).unwrap();
    let bb = s.get_entity_rigid_body(b).unwrap();
    assert!(ba.vel.x > 0);
    assert_eq!(ba.vel.x, -bb.vel.x);
    assert_eq!(ba.vel.y, 0);
}

#[test]
fn wireframe_toggle_follows_the_key() {
    let mut s = fresh_state(Gravity::Off);
    let settings = Settings::default();
    let press = Event::KeyboardInput { state: ElementState::Pressed, code: KEY_F3 };
    let release = Event::KeyboardInput { state: ElementState::Released, code: KEY_F3 };
    let events = vec![press];
    s.tick(8_333_333, &settings, &events, 0, 0);
    assert_eq!(s.wireframe_mode, true);
    // a release alone toggles nothing; the second press toggles back
    let events = vec![release, press];
    s.tick(8_333_333, &settings, &events, 0, 0);
    assert_eq!(s.wireframe_mode, false);
}

#[test]
fn held_keys_move_the_camera() {
    let mut s = fresh_state(Gravity::Off);
    let settings = Settings::default();
    let events = vec![Event::KeyboardInput { state: ElementState::Pressed, code: KEY_W }];
    s.tick(1_000_000_000, &settings, &events, 0, 0);
    // one second forward at 4 units per second, straight ahead
    assert_eq!(s.camera.pos, Vec3::xyz(0, 0, -4000));
    assert_eq!(s.camera.yaw, 0);
    // released: no further movement
    let events = vec![Event::KeyboardInput { state: ElementState::Released, code: KEY_W }];
    s.tick(1_000_000_000, &settings, &events, 0, 0);
    assert_eq!(s.camera.pos, Vec3::xyz(0, 0, -4000));
}

#[test]
fn mouse_movement_turns_the_camera() {
    let mut s = fresh_state(Gravity::Off);
    let settings = Settings::default();
    let events: Vec<Event> = Vec::new();
    s.tick(8_333_333, &settings, &events, 100, 50);
    // 0.008 radians per pixel, against the movement
    assert_eq!(s.camera.yaw, neat::math::TWO_PI_MICRO - 800_000);
    assert_eq!(s.camera.pitch, -400_000);
}

#[test]
fn render_is_a_pure_projection() {
    let mut s = fresh_state(Gravity::Constant(Vec3::xyz(0, -9810, 0)));
    let a = s.add_entity(unit_cube_entity(1, Vec3::new()));
    let before = s.get_entity_rigid_body(a).unwrap();
    let plan = s.render(60);
    assert_eq!(plan.fps, 60);
    assert_eq!(plan.items.len(), 1);
    assert_eq!(plan.items[0].mesh, 1);
    assert_eq!(plan.wireframe_mode, false);
    // rendering mutated nothing
    let after = s.get_entity_rigid_body(a).unwrap();
    assert_eq!(before, after);
}

#[test]
fn calculate_gravity_only_touches_forces() {
    let mut s = fresh_state(Gravity::Relative(1000));
    let a = s.add_entity(unit_cube_entity(1, Vec3::xyz(1000, 0, 0)));
    let b = s.add_entity(unit_cube_entity(2, Vec3::xyz(0, 1000, 0)));
    s.calculate_gravity(1000);
    let ba = s.get_entity_rigid_body(a).unwrap();
    let bb = s.get_entity_rigid_body(b).unwrap();
    assert_eq!(ba.force, Vec3::xyz(-353, 353, 0));
    assert_eq!(bb.force, Vec3::xyz(353, -353, 0));
    assert_eq!(ba.pos, Vec3::xyz(1000, 0, 0));
}
