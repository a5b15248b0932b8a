//! A small real-time simulation framework: an entity/physics-body
//! composition model, a deterministic rigid-body world, a fixed-timestep
//! main-loop core, and the text utilities the frame renderer relies on.
//!
//! All physical quantities are fixed-point integers in "milli" units:
//! a coordinate of `1000` stands for one world unit, a mass of `1000`
//! for one mass unit, and so on.  Angles are in microradians and time
//! in nanoseconds.  The rendering backend and the window system live
//! outside this crate; the library exchanges plain values with them.

pub mod camera;
pub mod entity;
pub mod event;
pub mod game;
pub mod gravity;
pub mod key;
pub mod light;
pub mod math;
pub mod mesh;
pub mod scenes;
pub mod settings;
pub mod state;
pub mod stopwatch;
pub mod text;
pub mod world;

pub use math::Vec3;
