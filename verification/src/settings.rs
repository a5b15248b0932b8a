//! Game settings: window preferences, the pause flag, and the key
//! bindings the loop and the simulation consult.
//!
//! Key codes follow the common keyboard-event numbering: letters are
//! their ASCII upper-case codes and the function keys start at 112.

use vstd::prelude::*;

verus! {

/// The `A` key.
pub const KEY_A: u32 = 65;

/// The `D` key.
pub const KEY_D: u32 = 68;

/// The `E` key.
pub const KEY_E: u32 = 69;

/// The `Q` key.
pub const KEY_Q: u32 = 81;

/// The `S` key.
pub const KEY_S: u32 = 83;

/// The `W` key.
pub const KEY_W: u32 = 87;

/// The `F1` key.
pub const KEY_F1: u32 = 112;

/// The `F2` key.
pub const KEY_F2: u32 = 113;

/// The `F3` key.
pub const KEY_F3: u32 = 114;

/// The `F4` key.
pub const KEY_F4: u32 = 115;

/// The `F5` key.
pub const KEY_F5: u32 = 116;

/// Game settings.
#[derive(Clone, Copy, Debug, PartialEq, Eq, Structural)]
pub struct Settings {
    /// Initial width of the window, pixels.
    pub w: u32,
    /// Initial height of the window, pixels.
    pub h: u32,
    /// Whether vsync is enabled.
    pub vsync: bool,
    /// Whether the simulation is currently paused.
    pub paused: bool,
    /// Forwards key.
    pub forward: u32,
    /// Backwards key.
    pub backward: u32,
    /// Strafe-left key.
    pub left: u32,
    /// Strafe-right key.
    pub right: u32,
    /// Move-up key.
    pub up: u32,
    /// Move-down key.
    pub down: u32,
    /// The key to pause or resume the simulation.
    pub physics_pause: Option<u32>,
    /// The key to step the simulation once while paused.
    pub physics_step: Option<u32>,
    /// The key to toggle wireframe rendering.
    pub wireframe_toggle: Option<u32>,
    /// The key to reload the shaders.
    pub reload_shaders: Option<u32>,
    /// The key to regenerate the game state from scratch.
    pub reset_state: Option<u32>,
}

impl Default for Settings {
    /// The default bindings: WASD movement with Q/E for up and down,
    /// and the function keys for the simulation controls.
    fn default() -> (s: Settings)
        ensures
            s == (Settings {
                w: 800,
                h: 600,
                vsync: true,
                paused: false,
                forward: KEY_W,
                backward: KEY_S,
                left: KEY_A,
                right: KEY_D,
                up: KEY_Q,
                down: KEY_E,
                physics_pause: Some(KEY_F1),
                physics_step: Some(KEY_F2),
                wireframe_toggle: Some(KEY_F3),
                reload_shaders: Some(KEY_F4),
                reset_state: Some(KEY_F5),
            }),
    {
        Settings {
            w: 800,
            h: 600,
            vsync: true,
            paused: false,
            forward: KEY_W,
            backward: KEY_S,
            left: KEY_A,
            right: KEY_D,
            up: KEY_Q,
            down: KEY_E,
            physics_pause: Some(KEY_F1),
            physics_step: Some(KEY_F2),
            wireframe_toggle: Some(KEY_F3),
            reload_shaders: Some(KEY_F4),
            reset_state: Some(KEY_F5),
        }
    }
}

} // verus!
