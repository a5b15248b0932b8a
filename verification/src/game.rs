//! The game shell: frame pacing and window-event decisions.
//!
//! The main loop itself lives with the windowing code; it measures the
//! wall clock, drains the window events into the library's `Event`
//! values, and then lets this module decide everything: how much
//! simulated time is owed, how many fixed physics steps to run, how
//! each event changes the control state, and when a frame only needs
//! to be redrawn.  Simulated time advances in fixed `PHYSICS_DT_NS`
//! steps regardless of the real frame rate, and the lag backlog is
//! capped so a stall cannot explode into an unbounded catch-up.

use vstd::prelude::*;

use crate::event::{ElementState, Event, MouseButton};
use crate::key::{spec_key_transition, KeyboardState};
use crate::math::spec_clamp;
use crate::settings::Settings;
use crate::state::{
    spec_camera_after, spec_gravity_vector, spec_keys_after, spec_sim_tick, spec_sim_ticks,
    spec_roots, spec_wireframe_after, GameState,
};

verus! {

/// Fixed physics steps per second.
pub const PHYSICS_HZ: u64 = 120;

/// The fixed physics timestep, nanoseconds (one second over
/// `PHYSICS_HZ`, rounded down).
pub const PHYSICS_DT_NS: u64 = 8_333_333;

/// Maximum simulated-time backlog, nanoseconds.
pub const MAX_LAG_NS: u64 = 500_000_000;

/// Most steps one frame can owe: the lag cap over the timestep.
pub const MAX_STEPS: u64 = 60;

/// Minimum wall-clock time between frames, nanoseconds.
pub const MIN_FRAME_NS: u64 = 5_000_000;

/// Needing more catch-up steps than this in one frame counts as a
/// stutter.
pub const STUTTER_THRESHOLD: u32 = 4;

/// The escape key.
pub const KEY_ESCAPE: u32 = 27;

/// Largest cursor coordinate magnitude the control pass tracks,
/// pixels.
pub const MOUSE_LIMIT: i64 = 99_000_000;

/// The lag backlog after one frame's elapsed time, capped.
pub open spec fn spec_accumulate(lag: int, elapsed: int) -> int {
    if lag + elapsed > MAX_LAG_NS {
        MAX_LAG_NS as int
    } else {
        lag + elapsed
    }
}

/// What the event pass decides, beyond the fields it updates in
/// place: the actions the shell must perform.
#[derive(Clone, Copy, Debug, PartialEq, Eq, Structural)]
pub struct EventOutcome {
    /// Reload the shaders.
    pub reload_shaders: bool,
    /// Regenerate the game state from its generator.
    pub reset_state: bool,
    /// Resize the render surface.
    pub resized: bool,
    /// Mouse movement since the last frame, pixels; zero while the
    /// window is unfocused.
    pub mouse_dx: i64,
    pub mouse_dy: i64,
}

/// The control state the event pass folds over: every flag it may
/// change, plus the mouse position it tracks.
pub ghost struct ControlFold {
    pub running: bool,
    pub focused: bool,
    pub ignore_next_mouse: bool,
    pub paused: bool,
    pub step: bool,
    pub keys: Set<u32>,
    pub mouse_x: int,
    pub mouse_y: int,
    pub reload_shaders: bool,
    pub reset_state: bool,
    pub resized: bool,
    pub rerender: bool,
}

/// One event's effect on the control state, mirroring the decision
/// ladder of the event pass.
pub open spec fn spec_control_step(
    st: ControlFold,
    s: Settings,
    mid_x: int,
    mid_y: int,
    ev: Event,
) -> ControlFold {
    match ev {
        Event::Destroyed => ControlFold { running: false, ..st },
        Event::CloseRequested => ControlFold { running: false, ..st },
        Event::CursorMoved { x, y } => {
            if st.ignore_next_mouse {
                ControlFold { ignore_next_mouse: false, ..st }
            } else {
                ControlFold {
                    mouse_x: spec_clamp(x as int, MOUSE_LIMIT as int),
                    mouse_y: spec_clamp(y as int, MOUSE_LIMIT as int),
                    ..st
                }
            }
        },
        Event::Focused(b) => ControlFold { focused: b, ..st },
        Event::MouseInput { state, button } => {
            if state == ElementState::Pressed && button == MouseButton::Left && !st.focused {
                ControlFold {
                    mouse_x: mid_x,
                    mouse_y: mid_y,
                    ignore_next_mouse: true,
                    focused: true,
                    ..st
                }
            } else {
                st
            }
        },
        Event::Resized => ControlFold { resized: true, ..st },
        Event::Refresh => ControlFold { rerender: true, ..st },
        Event::KeyboardInput { state, code } => {
            let keyed = ControlFold { keys: spec_key_transition(st.keys, state, code), ..st };
            if state == ElementState::Pressed {
                if code == KEY_ESCAPE {
                    ControlFold { focused: false, ..keyed }
                } else if s.physics_pause == Some(code) {
                    ControlFold { paused: !keyed.paused, ..keyed }
                } else if s.physics_step == Some(code) {
                    if keyed.paused {
                        ControlFold { paused: false, step: true, ..keyed }
                    } else {
                        keyed
                    }
                } else if s.reload_shaders == Some(code) {
                    ControlFold { reload_shaders: true, ..keyed }
                } else if s.reset_state == Some(code) {
                    ControlFold { reset_state: true, ..keyed }
                } else {
                    keyed
                }
            } else {
                keyed
            }
        },
        _ => st,
    }
}

/// The control state after the first `n` events.
pub open spec fn spec_control_fold(
    st: ControlFold,
    s: Settings,
    mid_x: int,
    mid_y: int,
    events: Seq<Event>,
    n: int,
) -> ControlFold
    decreases n,
{
    if n <= 0 {
        st
    } else {
        spec_control_step(
            spec_control_fold(st, s, mid_x, mid_y, events, n - 1),
            s,
            mid_x,
            mid_y,
            events[n - 1],
        )
    }
}

/// The camera after `k` further ticks with the same held keys and no
/// mouse movement.
pub open spec fn spec_camera_ticks(
    cam: crate::camera::Camera,
    pressed: Set<u32>,
    s: Settings,
    dt: int,
    k: nat,
) -> crate::camera::Camera
    decreases k,
{
    if k == 0 {
        cam
    } else {
        spec_camera_ticks(spec_camera_after(cam, pressed, s, dt, 0, 0), pressed, s, dt, (
        k - 1) as nat)
    }
}

/// The per-frame locals of the event pass.
pub struct ControlLocals {
    pub mouse_x: i64,
    pub mouse_y: i64,
    pub reload_shaders: bool,
    pub reset_state: bool,
    pub resized: bool,
    pub rerender: bool,
}

/// The control state a game and the event pass's locals stand for.
pub open spec fn spec_control_of(g: Game, loc: ControlLocals) -> ControlFold {
    ControlFold {
        running: g.running,
        focused: g.focused,
        ignore_next_mouse: g.ignore_next_mouse_movement,
        paused: g.settings.paused,
        step: g.step,
        keys: g.keyboard_state@,
        mouse_x: loc.mouse_x as int,
        mouse_y: loc.mouse_y as int,
        reload_shaders: loc.reload_shaders,
        reset_state: loc.reset_state,
        resized: loc.resized,
        rerender: loc.rerender,
    }
}

/// Appending one more tick to an iterated camera advance.
proof fn lemma_camera_ticks_snoc(
    cam: crate::camera::Camera,
    pressed: Set<u32>,
    s: Settings,
    dt: int,
    k: nat,
)
    ensures
        spec_camera_ticks(cam, pressed, s, dt, k + 1) == spec_camera_after(
            spec_camera_ticks(cam, pressed, s, dt, k),
            pressed,
            s,
            dt,
            0,
            0,
        ),
    decreases k,
{
    let after = spec_camera_after(cam, pressed, s, dt, 0, 0);
    assert(spec_camera_ticks(cam, pressed, s, dt, k + 1) == spec_camera_ticks(
        after,
        pressed,
        s,
        dt,
        k,
    ));
    if k == 0 {
        assert(spec_camera_ticks(after, pressed, s, dt, 0) == after);
        assert(spec_camera_ticks(cam, pressed, s, dt, 0) == cam);
    } else {
        lemma_camera_ticks_snoc(after, pressed, s, dt, (k - 1) as nat);
        assert(spec_camera_ticks(cam, pressed, s, dt, k as nat) == spec_camera_ticks(
            after,
            pressed,
            s,
            dt,
            (k - 1) as nat,
        ));
    }
}

/// The structure that keeps track of game-wide state: the settings,
/// the current simulation, the loop's control flags and the
/// fixed-timestep accumulator.
pub struct Game {
    pub settings: Settings,
    pub current_state: GameState,
    pub keyboard_state: KeyboardState,
    pub running: bool,
    pub focused: bool,
    pub step: bool,
    pub ignore_next_mouse_movement: bool,
    pub skip_next_tick: bool,
    pub rerender: bool,
    /// Simulated time owed and not yet consumed by physics steps,
    /// nanoseconds; never above `MAX_LAG_NS`.
    pub lag_ns: u64,
}

impl Game {
    /// A well-formed game: a well-formed simulation and a capped
    /// backlog.
    pub open spec fn wf(self) -> bool {
        &&& self.current_state.wf()
        &&& self.lag_ns <= MAX_LAG_NS
    }

    /// The control state this game's fields stand for, after the
    /// one-shot step key has re-paused the simulation.
    pub open spec fn spec_control(self, mid_x: int, mid_y: int) -> ControlFold {
        ControlFold {
            running: self.running,
            focused: self.focused,
            ignore_next_mouse: self.ignore_next_mouse_movement,
            paused: if self.step {
                true
            } else {
                self.settings.paused
            },
            step: false,
            keys: self.keyboard_state@,
            mouse_x: mid_x,
            mouse_y: mid_y,
            reload_shaders: false,
            reset_state: false,
            resized: false,
            rerender: false,
        }
    }

    /// A new game around an already built state.  The first tick is
    /// skipped so the fresh state is not advanced by a stale backlog.
    pub fn new(settings: Settings, state: GameState) -> (g: Game)
        requires
            state.wf(),
        ensures
            g.wf(),
            g.settings == settings,
            g.current_state == state,
            g.keyboard_state@ == Set::<u32>::empty(),
            g.running == true,
            g.focused == true,
            g.step == false,
            g.ignore_next_mouse_movement == false,
            g.skip_next_tick == true,
            g.rerender == false,
            g.lag_ns == 0,
    {
        Game {
            settings,
            current_state: state,
            keyboard_state: KeyboardState::new(),
            running: true,
            focused: true,
            step: false,
            ignore_next_mouse_movement: false,
            skip_next_tick: true,
            rerender: false,
            lag_ns: 0,
        }
    }

    /// Adds a frame's elapsed wall-clock time to the backlog, capped
    /// at `MAX_LAG_NS` so a stall never explodes into unbounded
    /// catch-up.
    pub fn accumulate(&mut self, elapsed_ns: u64)
        requires
            old(self).wf(),
        ensures
            final(self).wf(),
            final(self).lag_ns == spec_accumulate(old(self).lag_ns as int, elapsed_ns as int),
            *final(self) == (Game { lag_ns: final(self).lag_ns, ..*old(self) }),
    {
        if elapsed_ns > MAX_LAG_NS {
            self.lag_ns = MAX_LAG_NS;
        } else if self.lag_ns + elapsed_ns > MAX_LAG_NS {
            self.lag_ns = MAX_LAG_NS;
        } else {
            self.lag_ns = self.lag_ns + elapsed_ns;
        }
    }

    /// Clears the backlog once if a skip was requested (after a state
    /// reset or a shader reload), so the new state is not advanced by
    /// time owed to the old one.
    pub fn consume_skip(&mut self)
        requires
            old(self).wf(),
        ensures
            final(self).wf(),
            final(self).skip_next_tick == false,
            final(self).lag_ns == if old(self).skip_next_tick {
                0
            } else {
                old(self).lag_ns
            },
            *final(self) == (Game {
                lag_ns: final(self).lag_ns,
                skip_next_tick: false,
                ..*old(self)
            }),
    {
        if self.skip_next_tick {
            self.lag_ns = 0;
            self.skip_next_tick = false;
        }
    }

    /// Converts the backlog into a number of due fixed steps: the
    /// backlog divided by the timestep, with the remainder kept.
    /// Because the backlog is capped before this point, the count
    /// never exceeds `MAX_STEPS`.
    pub fn consume_steps(&mut self) -> (n: u32)
        requires
            old(self).wf(),
        ensures
            final(self).wf(),
            n == old(self).lag_ns as int / PHYSICS_DT_NS as int,
            final(self).lag_ns == old(self).lag_ns as int % PHYSICS_DT_NS as int,
            n <= MAX_STEPS,
            *final(self) == (Game { lag_ns: final(self).lag_ns, ..*old(self) }),
    {
        let lag = self.lag_ns;
        let n64 = self.lag_ns / PHYSICS_DT_NS;
        self.lag_ns = self.lag_ns % PHYSICS_DT_NS;
        proof {
            assert(n64 <= MAX_STEPS) by (nonlinear_arith)
                requires
                    n64 == lag as int / PHYSICS_DT_NS as int,
                    lag <= MAX_LAG_NS,
                    MAX_LAG_NS == 500_000_000,
                    PHYSICS_DT_NS == 8_333_333,
                    MAX_STEPS == 60,
            {}
        }
        n64 as u32
    }

    /// Whether a catch-up of `n` steps counts as a stutter worth
    /// reporting.
    pub fn is_stutter(&self, n: u32) -> (r: bool)
        ensures
            r == (n > STUTTER_THRESHOLD),
    {
        n > STUTTER_THRESHOLD
    }

    /// Replaces the simulation with a freshly generated one and skips
    /// the next tick, discarding the backlog owed to the old state.
    pub fn replace_state(&mut self, state: GameState)
        requires
            old(self).wf(),
            state.wf(),
        ensures
            final(self).wf(),
            final(self).current_state == state,
            final(self).skip_next_tick == true,
            *final(self) == (Game { current_state: state, skip_next_tick: true, ..*old(self) }),
    {
        self.current_state = state;
        self.skip_next_tick = true;
    }

    /// Processes the window events for one frame: updates the control
    /// flags, the key state and the pause machine (a one-shot step
    /// re-pauses here before anything else), and returns the actions
    /// the shell must perform together with the mouse movement.
    /// `mid_x`/`mid_y` is the screen centre the cursor is parked at.
    pub fn process_events(&mut self, events: &Vec<Event>, mid_x: i64, mid_y: i64) -> (out:
        EventOutcome)
        requires
            old(self).wf(),
            -1_000_000 <= mid_x <= 1_000_000,
            -1_000_000 <= mid_y <= 1_000_000,
        ensures
            final(self).wf(),
            ({
                let fold = spec_control_fold(
                    old(self).spec_control(mid_x as int, mid_y as int),
                    old(self).settings,
                    mid_x as int,
                    mid_y as int,
                    events@,
                    events@.len() as int,
                );
                &&& final(self).running == fold.running
                &&& final(self).focused == fold.focused
                &&& final(self).ignore_next_mouse_movement == fold.ignore_next_mouse
                &&& final(self).settings == (Settings {
                    paused: fold.paused,
                    ..old(self).settings
                })
                &&& final(self).step == fold.step
                &&& final(self).keyboard_state@ == fold.keys
                &&& final(self).rerender == (fold.rerender || fold.resized)
                &&& final(self).skip_next_tick == (old(self).skip_next_tick
                    || fold.reload_shaders)
                &&& final(self).current_state == old(self).current_state
                &&& final(self).lag_ns == old(self).lag_ns
                &&& out.reload_shaders == fold.reload_shaders
                &&& out.reset_state == fold.reset_state
                &&& out.resized == fold.resized
                &&& (fold.focused ==> out.mouse_dx == fold.mouse_x - mid_x && out.mouse_dy
                    == fold.mouse_y - mid_y)
                &&& (!fold.focused ==> out.mouse_dx == 0 && out.mouse_dy == 0)
                &&& -100_000_000 <= out.mouse_dx <= 100_000_000
                &&& -100_000_000 <= out.mouse_dy <= 100_000_000
            }),
    {
        if self.step {
            self.step = false;
            self.settings.paused = true;
        }
        let mut loc = ControlLocals {
            mouse_x: mid_x,
            mouse_y: mid_y,
            reload_shaders: false,
            reset_state: false,
            resized: false,
            rerender: false,
        };
        let ghost st0 = old(self).spec_control(mid_x as int, mid_y as int);
        let ghost s = old(self).settings;
        let n = events.len();
        let mut k: usize = 0;
        while k < n
            invariant
                -1_000_000 <= mid_x <= 1_000_000,
                -1_000_000 <= mid_y <= 1_000_000,
                n == events@.len(),
                k <= n,
                s == old(self).settings,
                spec_control_of(*self, loc) == spec_control_fold(
                    st0,
                    s,
                    mid_x as int,
                    mid_y as int,
                    events@,
                    k as int,
                ),
                self.settings.forward == s.forward
                    && self.settings.backward == s.backward
                    && self.settings.left == s.left
                    && self.settings.right == s.right
                    && self.settings.up == s.up
                    && self.settings.down == s.down
                    && self.settings.w == s.w
                    && self.settings.h == s.h
                    && self.settings.vsync == s.vsync
                    && self.settings.physics_pause == s.physics_pause
                    && self.settings.physics_step == s.physics_step
                    && self.settings.wireframe_toggle == s.wireframe_toggle
                    && self.settings.reload_shaders == s.reload_shaders
                    && self.settings.reset_state == s.reset_state,
                -MOUSE_LIMIT <= loc.mouse_x <= MOUSE_LIMIT,
                -MOUSE_LIMIT <= loc.mouse_y <= MOUSE_LIMIT,
                self.current_state == old(self).current_state,
                self.current_state.wf(),
                self.lag_ns == old(self).lag_ns,
                self.lag_ns <= MAX_LAG_NS,
                self.skip_next_tick == old(self).skip_next_tick,
                self.rerender == old(self).rerender,
            decreases n - k,
        {
            let ev = events[k];
            self.apply_event(&mut loc, ev, mid_x, mid_y);
            k = k + 1;
        }
        if loc.reload_shaders {
            self.skip_next_tick = true;
        }
        let rerender = loc.rerender || loc.resized;
        self.rerender = rerender;
        if self.focused {
            EventOutcome {
                reload_shaders: loc.reload_shaders,
                reset_state: loc.reset_state,
                resized: loc.resized,
                mouse_dx: loc.mouse_x - mid_x,
                mouse_dy: loc.mouse_y - mid_y,
            }
        } else {
            EventOutcome {
                reload_shaders: loc.reload_shaders,
                reset_state: loc.reset_state,
                resized: loc.resized,
                mouse_dx: 0,
                mouse_dy: 0,
            }
        }
    }

    /// Applies one window event to the control state; one step of the
    /// decision ladder of `process_events`.
    #[verifier::rlimit(100)]
    fn apply_event(&mut self, loc: &mut ControlLocals, ev: Event, mid_x: i64, mid_y: i64)
        requires
            -1_000_000 <= mid_x <= 1_000_000,
            -1_000_000 <= mid_y <= 1_000_000,
            -MOUSE_LIMIT <= old(loc).mouse_x <= MOUSE_LIMIT,
            -MOUSE_LIMIT <= old(loc).mouse_y <= MOUSE_LIMIT,
        ensures
            spec_control_of(*final(self), *final(loc)) == spec_control_step(
                spec_control_of(*old(self), *old(loc)),
                old(self).settings,
                mid_x as int,
                mid_y as int,
                ev,
            ),
            final(self).settings.forward == old(self).settings.forward,
            final(self).settings.backward == old(self).settings.backward,
            final(self).settings.left == old(self).settings.left,
            final(self).settings.right == old(self).settings.right,
            final(self).settings.up == old(self).settings.up,
            final(self).settings.down == old(self).settings.down,
            final(self).settings.w == old(self).settings.w,
            final(self).settings.h == old(self).settings.h,
            final(self).settings.vsync == old(self).settings.vsync,
            final(self).settings.physics_pause == old(self).settings.physics_pause,
            final(self).settings.physics_step == old(self).settings.physics_step,
            final(self).settings.wireframe_toggle == old(self).settings.wireframe_toggle,
            final(self).settings.reload_shaders == old(self).settings.reload_shaders,
            final(self).settings.reset_state == old(self).settings.reset_state,
            -MOUSE_LIMIT <= final(loc).mouse_x <= MOUSE_LIMIT,
            -MOUSE_LIMIT <= final(loc).mouse_y <= MOUSE_LIMIT,
            final(self).current_state == old(self).current_state,
            final(self).lag_ns == old(self).lag_ns,
            final(self).skip_next_tick == old(self).skip_next_tick,
            final(self).rerender == old(self).rerender,
    {
        match ev {
            Event::Destroyed => {
                self.running = false;
            },
            Event::CloseRequested => {
                self.running = false;
            },
            Event::CursorMoved { x, y } => {
                if self.ignore_next_mouse_movement {
                    self.ignore_next_mouse_movement = false;
                } else {
                    loc.mouse_x = if x > MOUSE_LIMIT {
                        MOUSE_LIMIT
                    } else if x < -MOUSE_LIMIT {
                        -MOUSE_LIMIT
                    } else {
                        x
                    };
                    loc.mouse_y = if y > MOUSE_LIMIT {
                        MOUSE_LIMIT
                    } else if y < -MOUSE_LIMIT {
                        -MOUSE_LIMIT
                    } else {
                        y
                    };
                }
            },
            Event::Focused(b) => {
                self.focused = b;
            },
            Event::MouseInput { state, button } => {
                let left_press = match (state, button) {
                    (ElementState::Pressed, MouseButton::Left) => true,
                    _ => false,
                };
                if left_press && !self.focused {
                    loc.mouse_x = mid_x;
                    loc.mouse_y = mid_y;
                    self.ignore_next_mouse_movement = true;
                    self.focused = true;
                }
            },
            Event::Resized => {
                loc.resized = true;
            },
            Event::Refresh => {
                loc.rerender = true;
            },
            Event::KeyboardInput { state, code } => {
                self.keyboard_state.process_event(state, code);
                if let ElementState::Pressed = state {
                    if code == KEY_ESCAPE {
                        self.focused = false;
                    } else if self.settings.physics_pause == Some(code) {
                        self.settings.paused = !self.settings.paused;
                    } else if self.settings.physics_step == Some(code) {
                        if self.settings.paused {
                            self.settings.paused = false;
                            self.step = true;
                        }
                    } else if self.settings.reload_shaders == Some(code) {
                        loc.reload_shaders = true;
                    } else if self.settings.reset_state == Some(code) {
                        loc.reset_state = true;
                    }
                }
            },
            _ => {},
        }
    }

    /// Ticks the game: runs exactly `n` fixed physics steps of the
    /// simulation, handing the frame's events and mouse movement to
    /// the first step only.
    pub fn tick(&mut self, dt_ns: u64, n: u32, events: &Vec<Event>, mouse_dx: i64, mouse_dy: i64)
        requires
            old(self).wf(),
            dt_ns <= crate::world::DT_LIMIT,
            -100_000_000 <= mouse_dx <= 100_000_000,
            -100_000_000 <= mouse_dy <= 100_000_000,
        ensures
            final(self).wf(),
            final(self).settings == old(self).settings,
            final(self).lag_ns == old(self).lag_ns,
            n == 0 ==> *final(self) == *old(self),
            n > 0 ==> {
                let s0 = old(self).current_state;
                let keys_after = spec_keys_after(
                    s0.keyboard_state@,
                    events@,
                    events@.len() as int,
                );
                &&& final(self).current_state.keyboard_state@ == keys_after
                &&& final(self).current_state.wireframe_mode == spec_wireframe_after(
                    s0.wireframe_mode,
                    events@,
                    old(self).settings.wireframe_toggle,
                    events@.len() as int,
                )
                &&& final(self).current_state.camera == spec_camera_ticks(
                    spec_camera_after(
                        s0.camera,
                        keys_after,
                        old(self).settings,
                        dt_ns as int,
                        mouse_dx as int,
                        mouse_dy as int,
                    ),
                    keys_after,
                    old(self).settings,
                    dt_ns as int,
                    (n - 1) as nat,
                )
                &&& final(self).current_state.entities@ == s0.entities@
                &&& final(self).current_state.next_free_id == s0.next_free_id
                &&& final(self).current_state.gravity == s0.gravity
                &&& final(self).current_state.world.joints@ == s0.world.joints@
                &&& final(self).current_state.world.colliders@ == s0.world.colliders@
                &&& (!old(self).settings.paused ==> final(self).current_state.world.bodies@
                    == spec_sim_ticks(
                    s0.world.bodies@,
                    spec_roots(s0.entities@),
                    s0.gravity,
                    s0.world.gravity,
                    dt_ns as int,
                    n as nat,
                ))
                &&& (!old(self).settings.paused ==> final(self).current_state.world.gravity
                    == spec_gravity_vector(s0.gravity, s0.world.gravity))
                &&& (!old(self).settings.paused ==> final(self).current_state.world.timestep_ns
                    == dt_ns)
                &&& final(self).current_state.light == s0.light
                &&& final(self).current_state.ambient_light == s0.ambient_light
                &&& (old(self).settings.paused ==> final(self).current_state.world
                    == s0.world)
                &&& final(self).running == old(self).running
                &&& final(self).focused == old(self).focused
                &&& final(self).step == old(self).step
                &&& final(self).skip_next_tick == old(self).skip_next_tick
                &&& final(self).rerender == old(self).rerender
                &&& final(self).keyboard_state@ == old(self).keyboard_state@
            },
    {
        if n == 0 {
            return ;
        }
        let settings = self.settings;
        self.current_state.tick(dt_ns, &settings, events, mouse_dx, mouse_dy);
        let empty: Vec<Event> = Vec::new();
        let ghost s1 = self.current_state;
        let mut i: u32 = 1;
        while i < n
            invariant
                1 <= i <= n,
                settings == old(self).settings,
                self.settings == old(self).settings,
                self.lag_ns == old(self).lag_ns,
                self.running == old(self).running,
                self.focused == old(self).focused,
                self.step == old(self).step,
                self.ignore_next_mouse_movement == old(self).ignore_next_mouse_movement,
                self.skip_next_tick == old(self).skip_next_tick,
                self.rerender == old(self).rerender,
                self.keyboard_state@ == old(self).keyboard_state@,
                empty@.len() == 0,
                self.current_state.wf(),
                self.current_state.keyboard_state@ == s1.keyboard_state@,
                self.current_state.wireframe_mode == s1.wireframe_mode,
                self.current_state.camera == spec_camera_ticks(
                    s1.camera,
                    s1.keyboard_state@,
                    settings,
                    dt_ns as int,
                    (i - 1) as nat,
                ),
                self.current_state.entities@ == s1.entities@,
                self.current_state.next_free_id == s1.next_free_id,
                self.current_state.gravity == s1.gravity,
                self.current_state.light == s1.light,
                self.current_state.ambient_light == s1.ambient_light,
                self.current_state.world.joints@ == s1.world.joints@,
                self.current_state.world.colliders@ == s1.world.colliders@,
                !settings.paused ==> self.current_state.world.bodies@ == spec_sim_ticks(
                    s1.world.bodies@,
                    spec_roots(s1.entities@),
                    s1.gravity,
                    s1.world.gravity,
                    dt_ns as int,
                    (i - 1) as nat,
                ),
                !settings.paused ==> self.current_state.world.gravity == if i == 1 {
                    s1.world.gravity
                } else {
                    spec_gravity_vector(s1.gravity, s1.world.gravity)
                },
                !settings.paused ==> self.current_state.world.timestep_ns == if i == 1 {
                    s1.world.timestep_ns
                } else {
                    dt_ns
                },
                settings.paused ==> self.current_state.world == s1.world,
                dt_ns <= crate::world::DT_LIMIT,
            decreases n - i,
        {
            let ghost before = self.current_state;
            self.current_state.tick(dt_ns, &settings, &empty, 0, 0);
            proof {
                lemma_camera_ticks_snoc(
                    s1.camera,
                    s1.keyboard_state@,
                    settings,
                    dt_ns as int,
                    (i - 1) as nat,
                );
                assert(spec_keys_after(before.keyboard_state@, empty@, 0) ==
                    before.keyboard_state@);
                if !settings.paused {
                    let roots = spec_roots(s1.entities@);
                    let prev = crate::state::spec_gvec_after(
                        s1.gravity,
                        s1.world.gravity,
                        (i - 1) as nat,
                    );
                    crate::state::lemma_fixed_step_determinism(
                        s1.world.bodies@,
                        roots,
                        s1.gravity,
                        s1.world.gravity,
                        dt_ns as int,
                        (i - 1) as nat,
                        1,
                    );
                    crate::state::lemma_sim_ticks_one(
                        before.world.bodies@,
                        roots,
                        s1.gravity,
                        prev,
                        dt_ns as int,
                    );
                    assert((i - 1) as nat + 1 == i as nat);
                    assert(before.world.gravity == prev);
                    assert(spec_roots(before.entities@) == roots);
                }
            }
            i = i + 1;
        }
    }
}

} // verus!
