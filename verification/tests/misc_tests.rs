use neat::camera::Camera;
use neat::event::Event;
use neat::light::{Color, Light, Material, Vec4};
use neat::math::{Vec3, HALF_PI_MICRO, TWO_PI_MICRO};
use neat::mesh::EmptyMesh;
use neat::scenes::{GameStateBuilder, LightHandler, Mode};
use neat::settings::{Settings, KEY_A, KEY_E, KEY_F1, KEY_F3, KEY_Q, KEY_S, KEY_W};

#[test]
fn camera_translation_follows_the_yaw() {
    let mut c = Camera::new(Vec3::new());
    c.translate(Vec3::xyz(0, 0, -4000));
    assert_eq!(c.pos(), Vec3::xyz(0, 0, -4000));
    // a quarter turn makes forward movement point sideways
    let mut c = Camera::new(Vec3::new());
    c.look(HALF_PI_MICRO, 0);
    assert_eq!(c.yaw, HALF_PI_MICRO);
    c.translate(Vec3::xyz(0, 0, -4000));
    assert_eq!(c.pos().x, -4000);
    assert_eq!(c.pos().z, 0);
}

#[test]
fn camera_look_wraps_and_clamps() {
    let mut c = Camera::new(Vec3::new());
    c.look(-1, 0);
    assert_eq!(c.yaw, TWO_PI_MICRO - 1);
    c.look(0, 10_000_000);
    assert_eq!(c.pitch, HALF_PI_MICRO);
    c.look(0, -30_000_000);
    assert_eq!(c.pitch, -HALF_PI_MICRO);
    c.mouse_moved(10, 0);
    assert_eq!(c.yaw, TWO_PI_MICRO - 1 - 80_000);
}

#[test]
fn light_constructors_fill_the_fields() {
    let off = Light::off();
    assert_eq!(off.diffuse, Vec4::zero());
    assert_eq!(off.pos.w, 0);
    let point = Light::new_point_light(
        Vec3::xyz(1, 2, 3),
        Vec4::xyzw(700, 700, 700, 1000),
        Vec4::xyzw(500, 500, 500, 1000),
        1000,
        400,
        220,
    );
    assert_eq!(point.pos, Vec4::xyzw(1, 2, 3, 1000));
    assert_eq!(point.constant_attenuation, 1000);
    assert_eq!(point.quadratic_attenuation, 220);
    let spot = Light::new_spotlight(
        Vec3::new(),
        Vec3::xyz(0, -1000, 0),
        Vec4::zero(),
        Vec4::zero(),
        0,
        0,
        0,
        500_000,
        2000,
    );
    assert_eq!(spot.spot_cutoff, 500_000);
    assert_eq!(spot.spot_direction, Vec3::xyz(0, -1000, 0));
    let dir = Light::new_directional(Vec3::xyz(0, 0, -1000), Vec4::zero(), Vec4::zero());
    assert_eq!(dir.pos.w, 0);
}

#[test]
fn colors_and_materials() {
    assert_eq!(Color::uniform(700), Color::new(700, 700, 700));
    assert_eq!(Color::red().into_array(), [1000, 0, 0]);
    assert_eq!(Color::yellow().into_vector3(), Vec3::xyz(1000, 1000, 0));
    let m = Material::new(
        Vec4::xyzw(900, 900, 900, 1000),
        Vec4::xyzw(900, 900, 900, 1000),
        Vec4::xyzw(500, 500, 500, 1000),
        1000,
    );
    let scaled = m.with_scale_rgba(Vec4::xyzw(1000, 0, 500, 1000));
    // each channel is the milli product of coefficient and scale
    assert_eq!(scaled.ambient, Vec4::xyzw(900, 0, 450, 1000));
    assert_eq!(scaled.specular, Vec4::xyzw(500, 0, 250, 1000));
    assert_eq!(m.with_ambient(Vec4::zero()).ambient, Vec4::zero());
    assert_eq!(m.with_diffuse(Vec4::zero()).diffuse, Vec4::zero());
    assert_eq!(m.with_specular(Vec4::zero()).specular, Vec4::zero());
}

#[test]
fn default_settings_bind_the_expected_keys() {
    let s = Settings::default();
    assert_eq!(s.w, 800);
    assert_eq!(s.h, 600);
    assert!(s.vsync);
    assert!(!s.paused);
    assert_eq!(s.forward, KEY_W);
    assert_eq!(s.backward, KEY_S);
    assert_eq!(s.left, KEY_A);
    assert_eq!(s.up, KEY_Q);
    assert_eq!(s.down, KEY_E);
    assert_eq!(s.physics_pause, Some(KEY_F1));
    assert_eq!(s.wireframe_toggle, Some(KEY_F3));
}

#[test]
fn empty_mesh_exists() {
    let m = EmptyMesh::new();
    let _ = m;
}

#[test]
fn scenes_have_their_entities() {
    let s = GameStateBuilder::build_default(1);
    assert_eq!(s.entities.len(), 108);
    let s = GameStateBuilder::build_spaceballs(1, 2, 3);
    assert_eq!(s.entities.len(), 3);
    assert!(s.get_entity(0).is_some());
    assert!(s.get_entity(2).is_some());
    assert!(s.get_entity(3).is_none());
    let s = GameStateBuilder::build_rot_test(1, 2, 3);
    assert_eq!(s.entities.len(), 7);
    let s = GameStateBuilder::build_solar(1, 2, 3);
    assert_eq!(s.entities.len(), 3);
    // the sun is heavy, mercury light
    let sun = s.get_entity(0).unwrap().mass();
    let mercury = s.get_entity(2).unwrap().mass();
    assert!(sun > 50_000);
    assert!(mercury < 1000);
    // the committed planet bodies carry the placements the contract pins
    let earth = s.get_entity_rigid_body(1).unwrap();
    assert_eq!(earth.pos, Vec3::xyz(18_000, 0, 0));
    assert_eq!(earth.vel, Vec3::xyz(0, 0, -22_000));
    let s = GameStateBuilder::build_balls(1, 2, 3);
    assert_eq!(s.entities.len(), 104);
    let s = GameStateBuilder::build_tables(1, 2, 3, 4);
    assert_eq!(s.entities.len(), 108);
    // a table is one entity of five rigid components: four legs of
    // mass 0.192 each and a top of mass 2.0
    assert_eq!(s.get_entity(3).unwrap().bodies.len(), 5);
    assert_eq!(s.get_entity(3).unwrap().mass(), 4 * 192 + 2000);
}

#[test]
fn light_handler_adjusts_the_selected_coefficient() {
    let mut h = LightHandler::new();
    assert_eq!(h.mode, Mode::LightConstant);
    let mut state = GameStateBuilder::build_spaceballs(1, 2, 3);
    let before = state.light();
    // ten pixels of scroll move the constant coefficient by 0.7
    let events = vec![Event::MouseWheel { dx: 0, dy: 10 }];
    h.tick(&mut state, &events);
    assert_eq!(state.light().constant_attenuation, before.constant_attenuation + 700);
    assert_eq!(state.light().linear_attenuation, before.linear_attenuation);
    // the typed digit selects another coefficient
    let events = vec![Event::ReceivedCharacter('2'), Event::MouseWheel { dx: 0, dy: -5 }];
    h.tick(&mut state, &events);
    assert_eq!(h.mode, Mode::LightLinear);
    assert_eq!(state.light().linear_attenuation, before.linear_attenuation - 350);
    assert_eq!(h.render_label(), "linear attenuation");
}
