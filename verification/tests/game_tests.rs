use neat::camera::Camera;
use neat::entity::{Component, EntityBuilder, Shape};
use neat::event::{ElementState, Event, MouseButton};
use neat::game::{Game, KEY_ESCAPE, MAX_LAG_NS, MAX_STEPS, PHYSICS_DT_NS};
use neat::math::Vec3;
use neat::settings::{Settings, KEY_F1, KEY_F2, KEY_F5};
use neat::state::{GameState, Gravity};

fn falling_state() -> GameState {
    let mut s = GameState::new(Camera::new(Vec3::new()), Gravity::Constant(Vec3::xyz(0, -9810, 0)));
    let _ = s.add_entity(
        EntityBuilder::new(1000, 900, 100).component(
            Component::new(Shape::Cuboid { half_extents: Vec3::xyz(500, 500, 500) }, 1),
        ),
    );
    s
}

fn new_game() -> Game {
    Game::new(Settings::default(), falling_state())
}

#[test]
fn lag_accumulates_and_is_capped() {
    let mut g = new_game();
    g.skip_next_tick = false;
    g.accumulate(10_000_000);
    assert_eq!(g.lag_ns, 10_000_000);
    g.accumulate(20_000_000);
    assert_eq!(g.lag_ns, 30_000_000);
    // a stall cannot push the backlog past the cap
    g.accumulate(3_000_000_000);
    assert_eq!(g.lag_ns, MAX_LAG_NS);
    g.accumulate(u64::MAX);
    assert_eq!(g.lag_ns, MAX_LAG_NS);
}

#[test]
fn lag_cap_bounds_the_step_count() {
    let mut g = new_game();
    g.skip_next_tick = false;
    g.accumulate(u64::MAX);
    let n = g.consume_steps();
    // floor(500ms / PHYSICS_DT) steps, never more
    assert_eq!(n as u64, MAX_LAG_NS / PHYSICS_DT_NS);
    assert!(n as u64 <= MAX_STEPS);
}

#[test]
fn steps_consume_whole_timesteps_only() {
    let mut g = new_game();
    g.skip_next_tick = false;
    g.accumulate(25_000_000);
    let n = g.consume_steps();
    assert_eq!(n, 3);
    assert_eq!(g.lag_ns, 25_000_000 - 3 * PHYSICS_DT_NS);
    // not enough backlog for another step
    let n = g.consume_steps();
    assert_eq!(n, 0);
}

#[test]
fn the_first_tick_is_skipped() {
    let mut g = new_game();
    assert!(g.skip_next_tick);
    g.accumulate(100_000_000);
    g.consume_skip();
    assert_eq!(g.lag_ns, 0);
    assert!(!g.skip_next_tick);
    // without a pending skip the backlog is kept
    g.accumulate(100_000_000);
    g.consume_skip();
    assert_eq!(g.lag_ns, 100_000_000);
}

#[test]
fn stutter_threshold() {
    let g = new_game();
    assert!(!g.is_stutter(4));
    assert!(g.is_stutter(5));
}

#[test]
fn close_request_stops_the_loop() {
    let mut g = new_game();
    let events = vec![Event::CloseRequested];
    let _ = g.process_events(&events, 0, 0);
    assert!(!g.running);
}

#[test]
fn pause_key_toggles_and_step_key_steps_once() {
    let mut g = new_game();
    let pause = Event::KeyboardInput { state: ElementState::Pressed, code: KEY_F1 };
    let step = Event::KeyboardInput { state: ElementState::Pressed, code: KEY_F2 };
    let _ = g.process_events(&vec![pause], 0, 0);
    assert!(g.settings.paused);
    // the step key unpauses for exactly one frame
    let _ = g.process_events(&vec![step], 0, 0);
    assert!(!g.settings.paused);
    assert!(g.step);
    // the next frame re-pauses before anything else
    let _ = g.process_events(&Vec::new(), 0, 0);
    assert!(g.settings.paused);
    assert!(!g.step);
}

#[test]
fn escape_unfocuses_and_mutes_the_mouse() {
    let mut g = new_game();
    let events = vec![
        Event::KeyboardInput { state: ElementState::Pressed, code: KEY_ESCAPE },
        Event::CursorMoved { x: 500, y: 300 },
    ];
    let out = g.process_events(&events, 100, 100);
    assert!(!g.focused);
    assert_eq!((out.mouse_dx, out.mouse_dy), (0, 0));
    // clicking refocuses and swallows the next movement
    let events = vec![
        Event::MouseInput { state: ElementState::Pressed, button: MouseButton::Left },
        Event::CursorMoved { x: 500, y: 300 },
    ];
    let out = g.process_events(&events, 100, 100);
    assert!(g.focused);
    assert!(g.ignore_next_mouse_movement == false);
    assert_eq!((out.mouse_dx, out.mouse_dy), (0, 0));
}

#[test]
fn mouse_delta_is_relative_to_the_centre() {
    let mut g = new_game();
    let events = vec![Event::CursorMoved { x: 140, y: 80 }];
    let out = g.process_events(&events, 100, 100);
    assert_eq!((out.mouse_dx, out.mouse_dy), (40, -20));
}

#[test]
fn reset_key_is_reported_and_replacing_skips_a_tick() {
    let mut g = new_game();
    g.skip_next_tick = false;
    let reset = Event::KeyboardInput { state: ElementState::Pressed, code: KEY_F5 };
    let out = g.process_events(&vec![reset], 0, 0);
    assert!(out.reset_state);
    assert!(!g.skip_next_tick);
    g.replace_state(falling_state());
    assert!(g.skip_next_tick);
}

#[test]
fn refresh_asks_for_a_rerender() {
    let mut g = new_game();
    let out = g.process_events(&vec![Event::Refresh], 0, 0);
    assert!(g.rerender);
    assert!(!out.resized);
    let out = g.process_events(&vec![Event::Resized], 0, 0);
    assert!(g.rerender);
    assert!(out.resized);
}

#[test]
fn grouped_ticks_match_single_ticks() {
    // fixed-step determinism: two steps in one frame end exactly
    // where one step in each of two frames ends, with renders in
    // between
    let mut a = new_game();
    let mut b = new_game();
    let events: Vec<Event> = Vec::new();
    a.tick(PHYSICS_DT_NS, 2, &events, 0, 0);
    b.tick(PHYSICS_DT_NS, 1, &events, 0, 0);
    let _ = b.current_state.render(60);
    b.tick(PHYSICS_DT_NS, 1, &events, 0, 0);
    let ba = a.current_state.get_entity_rigid_body(0).unwrap();
    let bb = b.current_state.get_entity_rigid_body(0).unwrap();
    assert_eq!(ba, bb);
    // and the bodies really moved
    assert!(ba.pos.y < 0);
}

#[test]
fn zero_ticks_change_nothing() {
    let mut g = new_game();
    let before = g.current_state.get_entity_rigid_body(0).unwrap();
    g.tick(PHYSICS_DT_NS, 0, &Vec::new(), 0, 0);
    let after = g.current_state.get_entity_rigid_body(0).unwrap();
    assert_eq!(before, after);
}
