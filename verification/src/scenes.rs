//! Ready-made scenes, and the light handler the lighting scene uses.
//!
//! A scene builds entities and a gravity policy into a fresh
//! `GameState`.  Meshes belong to the rendering backend, so every
//! scene takes the mesh identifiers it should attach; the textured
//! scenes of the renderer load their assets around these builders.

use vstd::prelude::*;

use crate::camera::Camera;
use crate::entity::{spec_committed_body, Component, EntityBuilder, JointSpec, Shape};
use crate::event::Event;
use crate::light::Light;
use crate::math::{clamp_i128, spec_clamp, Vec3};
use crate::mesh::MeshId;
use crate::state::{GameState, Gravity};

verus! {

/// Largest light attenuation the handler tracks, milli units.
pub const ATTENUATION_LIMIT: i64 = 1_000_000_000_000;

/// Attenuation change per pixel of wheel scroll, milli units.
pub const ATTENUATION_PER_PIXEL: i64 = 70;

/// Util functions for creating a `GameState`.
pub struct GameStateBuilder {}

impl GameStateBuilder {
    /// Builds the default scene, the falling tables, with one mesh
    /// standing in for every part; the windowed shell passes real
    /// ones.
    pub fn build_default(mesh: MeshId) -> (s: GameState)
        ensures
            s.wf(),
            s.gravity == Gravity::Constant(Vec3 { x: 0, y: -9810i64, z: 0 }),
            s.camera == (Camera {
                pos: Vec3 { x: 2000, y: 2000, z: 10_000 },
                yaw: 0,
                pitch: 0,
            }),
            s.next_free_id == 108,
            s.entities@.len() == 108,
    {
        GameStateBuilder::build_tables(mesh, mesh, mesh, mesh)
    }

    /// Builds the `solar` scene: a heavy sun and two light planets
    /// with tangential velocities, under relative gravity.  The three
    /// committed bodies are pinned exactly: ids 0, 1, 2 carry the
    /// sun, the earth and mercury with the positions, velocities and
    /// density-derived masses below.
    pub fn build_solar(sun_mesh: MeshId, earth_mesh: MeshId, mercury_mesh: MeshId) -> (s:
        GameState)
        ensures
            s.wf(),
            s.gravity == Gravity::Relative(1000),
            s.camera == (Camera { pos: Vec3 { x: 0, y: 0, z: 20_000 }, yaw: 0, pitch: 0 }),
            s.next_free_id == 3,
            s.entities@.len() == 3,
            s.entities@[0].0 == 0 && s.entities@[0].1.bodies@.len() == 1
                && s.entities@[0].1.bodies@[0] == 0,
            s.entities@[1].0 == 1 && s.entities@[1].1.bodies@.len() == 1
                && s.entities@[1].1.bodies@[0] == 1,
            s.entities@[2].0 == 2 && s.entities@[2].1.bodies@.len() == 1
                && s.entities@[2].1.bodies@[0] == 2,
            s.world.bodies@.len() == 3,
            s.world.bodies@[0] == Some(
                spec_committed_body(
                    Vec3 { x: 0, y: 0, z: 0 },
                    Vec3 { x: 0, y: 0, z: 0 },
                    Vec3 { x: 0, y: 0, z: 380 },
                    Vec3 { x: 0, y: 0, z: 0 },
                    Some(23_872i64),
                    Shape::Ball { radius: 1000 },
                ),
            ),
            s.world.bodies@[1] == Some(
                spec_committed_body(
                    Vec3 { x: 18_000, y: 0, z: 0 },
                    Vec3 { x: 0, y: 0, z: 0 },
                    Vec3 { x: 0, y: 0, z: -22_000i64 },
                    Vec3 { x: 0, y: 0, z: 0 },
                    Some(23_872i64),
                    Shape::Ball { radius: 228 },
                ),
            ),
            s.world.bodies@[2] == Some(
                spec_committed_body(
                    Vec3 { x: 10_000, y: 0, z: 0 },
                    Vec3 { x: 0, y: 0, z: 0 },
                    Vec3 { x: 0, y: 0, z: -30_000i64 },
                    Vec3 { x: 0, y: 0, z: 0 },
                    Some(23_872i64),
                    Shape::Ball { radius: 49 },
                ),
            ),
    {
        let mut state = GameState::new(
            Camera::new(Vec3::xyz(0, 0, 20_000)),
            Gravity::Relative(1000),
        );
        let c0 = Component::new(Shape::Ball { radius: 1000 }, sun_mesh);
        let sun = EntityBuilder::new(23_872, 1000, 0).component(c0).pos(Vec3::xyz(0, 0, 0)).vel(
            Vec3::xyz(0, 0, 380),
        );
        let ghost g0 = sun;
        proof {
            assert(g0.joints@ =~= Seq::<JointSpec>::empty());
            assert(g0.components@ =~= seq![c0]);
        }
        let _ = state.add_entity(sun);
        proof {
            assert(state.world.bodies@[0] == Some(g0.spec_component_body(0)));
            assert(state.entities@[0].0 == 0);
            assert(state.entities@[0].1.bodies@.len() == 1 && state.entities@[0].1.bodies@[0]
                == 0);
        }
        let c1 = Component::new(Shape::Ball { radius: 228 }, earth_mesh);
        let earth = EntityBuilder::new(23_872, 1000, 0).component(c1).pos(
            Vec3::xyz(18_000, 0, 0),
        ).vel(Vec3::xyz(0, 0, -22_000));
        let ghost g1 = earth;
        proof {
            assert(g1.joints@ =~= Seq::<JointSpec>::empty());
            assert(g1.components@ =~= seq![c1]);
        }
        let _ = state.add_entity(earth);
        proof {
            assert(state.world.bodies@[1] == Some(g1.spec_component_body(0)));
            assert(state.entities@[1].0 == 1);
            assert(state.entities@[1].1.bodies@.len() == 1 && state.entities@[1].1.bodies@[0]
                == 1);
        }
        let c2 = Component::new(Shape::Ball { radius: 49 }, mercury_mesh);
        let mercury = EntityBuilder::new(23_872, 1000, 0).component(c2).pos(
            Vec3::xyz(10_000, 0, 0),
        ).vel(Vec3::xyz(0, 0, -30_000));
        let ghost g2 = mercury;
        proof {
            assert(g2.joints@ =~= Seq::<JointSpec>::empty());
            assert(g2.components@ =~= seq![c2]);
        }
        let _ = state.add_entity(mercury);
        proof {
            assert(state.world.bodies@[2] == Some(g2.spec_component_body(0)));
            assert(state.entities@[2].0 == 2);
            assert(state.entities@[2].1.bodies@.len() == 1 && state.entities@[2].1.bodies@[0]
                == 2);
        }
        state
    }

    /// Builds the `rot_test` scene: balls spinning around different
    /// axes at different speeds, with no gravity.
    pub fn build_rot_test(red: MeshId, green: MeshId, blue: MeshId) -> (s: GameState)
        ensures
            s.wf(),
            s.gravity == Gravity::Off,
            s.camera == (Camera { pos: Vec3 { x: 2000, y: 0, z: 10_000 }, yaw: 0, pitch: 0 }),
            s.next_free_id == 7,
            s.entities@.len() == 7,
    {
        let mut state = GameState::new(Camera::new(Vec3::xyz(2000, 0, 10_000)), Gravity::Off);
        let _ = state.add_entity(
            EntityBuilder::new(1000, 900, 100).component(
                Component::new(Shape::Ball { radius: 1000 }, red),
            ).pos(Vec3::xyz(0, 0, 0)),
        );
        let _ = state.add_entity(
            EntityBuilder::new(1000, 900, 100).component(
                Component::new(Shape::Ball { radius: 1000 }, green),
            ).pos(Vec3::xyz(3000, 0, 0)).ang_vel(Vec3::xyz(1000, 0, 0)),
        );
        let _ = state.add_entity(
            EntityBuilder::new(1000, 900, 100).component(
                Component::new(Shape::Ball { radius: 1000 }, blue),
            ).pos(Vec3::xyz(6000, 0, 0)).ang_vel(Vec3::xyz(2000, 0, 0)),
        );
        let _ = state.add_entity(
            EntityBuilder::new(1000, 900, 100).component(
                Component::new(Shape::Ball { radius: 1000 }, green),
            ).pos(Vec3::xyz(0, 3000, 0)).ang_vel(Vec3::xyz(0, 1000, 0)),
        );
        let _ = state.add_entity(
            EntityBuilder::new(1000, 900, 100).component(
                Component::new(Shape::Ball { radius: 1000 }, blue),
            ).pos(Vec3::xyz(0, 6000, 0)).ang_vel(Vec3::xyz(0, 2000, 0)),
        );
        let _ = state.add_entity(
            EntityBuilder::new(1000, 900, 100).component(
                Component::new(Shape::Ball { radius: 1000 }, green),
            ).pos(Vec3::xyz(0, 0, 3000)).ang_vel(Vec3::xyz(0, 0, 1000)),
        );
        let _ = state.add_entity(
            EntityBuilder::new(1000, 900, 100).component(
                Component::new(Shape::Ball { radius: 1000 }, blue),
            ).pos(Vec3::xyz(0, 0, 6000)).ang_vel(Vec3::xyz(0, 0, 2000)),
        );
        state
    }

    /// Builds the `spaceballs` scene: three balls that attract one
    /// another, all with different initial velocities.  The three
    /// committed bodies are pinned exactly.
    pub fn build_spaceballs(red: MeshId, green: MeshId, blue: MeshId) -> (s: GameState)
        ensures
            s.wf(),
            s.gravity == Gravity::Relative(1000),
            s.camera == (Camera {
                pos: Vec3 { x: 2000, y: 2000, z: 10_000 },
                yaw: 0,
                pitch: 0,
            }),
            s.next_free_id == 3,
            s.entities@.len() == 3,
            s.entities@[0].0 == 0 && s.entities@[0].1.bodies@.len() == 1
                && s.entities@[0].1.bodies@[0] == 0,
            s.entities@[1].0 == 1 && s.entities@[1].1.bodies@.len() == 1
                && s.entities@[1].1.bodies@[0] == 1,
            s.entities@[2].0 == 2 && s.entities@[2].1.bodies@.len() == 1
                && s.entities@[2].1.bodies@[0] == 2,
            s.world.bodies@.len() == 3,
            s.world.bodies@[0] == Some(
                spec_committed_body(
                    Vec3 { x: 5000, y: 0, z: 0 },
                    Vec3 { x: 0, y: 0, z: 0 },
                    Vec3 { x: 0, y: 1000, z: -1000i64 },
                    Vec3 { x: 0, y: 0, z: 0 },
                    Some(1000i64),
                    Shape::Ball { radius: 1000 },
                ),
            ),
            s.world.bodies@[1] == Some(
                spec_committed_body(
                    Vec3 { x: 0, y: 0, z: -5000i64 },
                    Vec3 { x: 0, y: 0, z: 0 },
                    Vec3 { x: 1000, y: -1000i64, z: 1000 },
                    Vec3 { x: 0, y: 0, z: 0 },
                    Some(1000i64),
                    Shape::Ball { radius: 1000 },
                ),
            ),
            s.world.bodies@[2] == Some(
                spec_committed_body(
                    Vec3 { x: 0, y: 5000, z: 0 },
                    Vec3 { x: 0, y: 0, z: 0 },
                    Vec3 { x: -1000i64, y: 1000, z: 1000 },
                    Vec3 { x: 0, y: 0, z: 0 },
                    Some(1000i64),
                    Shape::Ball { radius: 1000 },
                ),
            ),
    {
        let mut state = GameState::new(
            Camera::new(Vec3::xyz(2000, 2000, 10_000)),
            Gravity::Relative(1000),
        );
        let c0 = Component::new(Shape::Ball { radius: 1000 }, red);
        let b0 = EntityBuilder::new(1000, 900, 100).component(c0).pos(Vec3::xyz(5000, 0, 0)).vel(
            Vec3::xyz(0, 1000, -1000),
        );
        let ghost g0 = b0;
        proof {
            assert(g0.joints@ =~= Seq::<JointSpec>::empty());
            assert(g0.components@ =~= seq![c0]);
        }
        let _ = state.add_entity(b0);
        proof {
            assert(state.world.bodies@[0] == Some(g0.spec_component_body(0)));
            assert(state.entities@[0].0 == 0);
            assert(state.entities@[0].1.bodies@.len() == 1 && state.entities@[0].1.bodies@[0]
                == 0);
        }
        let c1 = Component::new(Shape::Ball { radius: 1000 }, green);
        let b1 = EntityBuilder::new(1000, 900, 100).component(c1).pos(Vec3::xyz(0, 0, -5000)).vel(
            Vec3::xyz(1000, -1000, 1000),
        );
        let ghost g1 = b1;
        proof {
            assert(g1.joints@ =~= Seq::<JointSpec>::empty());
            assert(g1.components@ =~= seq![c1]);
        }
        let _ = state.add_entity(b1);
        proof {
            assert(state.world.bodies@[1] == Some(g1.spec_component_body(0)));
            assert(state.entities@[1].0 == 1);
            assert(state.entities@[1].1.bodies@.len() == 1 && state.entities@[1].1.bodies@[0]
                == 1);
        }
        let c2 = Component::new(Shape::Ball { radius: 1000 }, blue);
        let b2 = EntityBuilder::new(1000, 900, 100).component(c2).pos(Vec3::xyz(0, 5000, 0)).vel(
            Vec3::xyz(-1000, 1000, 1000),
        );
        let ghost g2 = b2;
        proof {
            assert(g2.joints@ =~= Seq::<JointSpec>::empty());
            assert(g2.components@ =~= seq![c2]);
        }
        let _ = state.add_entity(b2);
        proof {
            assert(state.world.bodies@[2] == Some(g2.spec_component_body(0)));
            assert(state.entities@[2].0 == 2);
            assert(state.entities@[2].1.bodies@.len() == 1 && state.entities@[2].1.bodies@[0]
                == 2);
        }
        state
    }

    /// Builds the `balls` scene: four static planes tilted inwards to
    /// form a cone, and a grid of balls dropped into it under constant
    /// gravity.
    pub fn build_balls(plane_green: MeshId, plane_blue: MeshId, ball_mesh: MeshId) -> (s:
        GameState)
        ensures
            s.wf(),
            s.gravity == Gravity::Constant(Vec3 { x: 0, y: -9810i64, z: 0 }),
            s.camera == (Camera {
                pos: Vec3 { x: 0, y: 10_000, z: 15_000 },
                yaw: 0,
                pitch: 0,
            }),
            s.next_free_id == 104,
            s.entities@.len() == 104,
    {
        let mut state = GameState::new(
            Camera::new(Vec3::xyz(0, 10_000, 15_000)),
            Gravity::Constant(Vec3::xyz(0, -9810, 0)),
        );
        let he = Vec3::xyz(20_000, 1000, 20_000);
        let _ = state.add_entity(
            EntityBuilder::new_static(100, 500).component(
                Component::new(Shape::Cuboid { half_extents: he }, plane_green),
            ).rot(Vec3::xyz(0, 0, -500)),
        );
        let _ = state.add_entity(
            EntityBuilder::new_static(100, 500).component(
                Component::new(Shape::Cuboid { half_extents: he }, plane_blue),
            ).rot(Vec3::xyz(-500, 0, 0)),
        );
        let _ = state.add_entity(
            EntityBuilder::new_static(100, 500).component(
                Component::new(Shape::Cuboid { half_extents: he }, plane_green),
            ).rot(Vec3::xyz(0, 0, 500)),
        );
        let _ = state.add_entity(
            EntityBuilder::new_static(100, 500).component(
                Component::new(Shape::Cuboid { half_extents: he }, plane_blue),
            ).rot(Vec3::xyz(500, 0, 0)),
        );
        let mut x: u32 = 0;
        while x < 10
            invariant
                x <= 10,
                state.wf(),
                state.gravity == Gravity::Constant(Vec3 { x: 0, y: -9810i64, z: 0 }),
                state.camera == (Camera {
                    pos: Vec3 { x: 0, y: 10_000, z: 15_000 },
                    yaw: 0,
                    pitch: 0,
                }),
                state.entities@.len() == 4 + x * 10,
                state.next_free_id == 4 + x * 10,
            decreases 10 - x,
        {
            let mut z: u32 = 0;
            while z < 10
                invariant
                    x < 10,
                    z <= 10,
                    state.wf(),
                    state.gravity == Gravity::Constant(Vec3 { x: 0, y: -9810i64, z: 0 }),
                    state.camera == (Camera {
                        pos: Vec3 { x: 0, y: 10_000, z: 15_000 },
                        yaw: 0,
                        pitch: 0,
                    }),
                    state.entities@.len() == 4 + x * 10 + z,
                    state.next_free_id == 4 + x * 10 + z,
                decreases 10 - z,
            {
                let px: i64 = (x as i64 - 5) * 2000;
                let pz: i64 = (z as i64 - 5) * 2000;
                let _ = state.add_entity(
                    EntityBuilder::new(1000, 300, 500).component(
                        Component::new(Shape::Ball { radius: 400 }, ball_mesh),
                    ).pos(Vec3::xyz(px, 20_000, pz)),
                );
                z = z + 1;
            }
            x = x + 1;
        }
        state
    }
}

/// Adds one table to the scene: four legs and a top, one rigid
/// entity of five components.
fn build_table(state: &mut GameState, top_mesh: MeshId, leg_mesh: MeshId, pos: Vec3)
    requires
        old(state).wf(),
        pos.in_range(),
        old(state).next_free_id < 0xffff_ffff,
    ensures
        final(state).wf(),
        final(state).entities@.len() == old(state).entities@.len() + 1,
        final(state).next_free_id == old(state).next_free_id + 1,
        final(state).gravity == old(state).gravity,
        final(state).camera == old(state).camera,
        final(state).light == old(state).light,
        final(state).ambient_light == old(state).ambient_light,
{
    let leg_he = Vec3::xyz(200, 600, 200);
    let top_he = Vec3::xyz(1000, 250, 1000);
    let leg = Component::new(Shape::Cuboid { half_extents: leg_he }, leg_mesh);
    let top = Component::new(Shape::Cuboid { half_extents: top_he }, top_mesh);
    // legs sit under the corners of the top: half the table size in
    // from the edge, hanging half a top plus half a leg down
    let builder = EntityBuilder::new(1000, 300, 600)
        .component(leg.pos(Vec3::xyz(800, -850, 800)))
        .component(leg.pos(Vec3::xyz(-800, -850, 800)))
        .component(leg.pos(Vec3::xyz(800, -850, -800)))
        .component(leg.pos(Vec3::xyz(-800, -850, -800)))
        .component(top)
        .pos(pos);
    let _ = state.add_entity(builder);
}

impl GameStateBuilder {
    /// Builds the `tables` scene: a closed room of static walls, a
    /// stack of five-component tables falling onto each other under
    /// constant gravity, and a point light with its marker ball.
    pub fn build_tables(top_mesh: MeshId, leg_mesh: MeshId, wall_mesh: MeshId, marker_mesh:
        MeshId) -> (s: GameState)
        ensures
            s.wf(),
            s.gravity == Gravity::Constant(Vec3 { x: 0, y: -9810i64, z: 0 }),
            s.camera == (Camera {
                pos: Vec3 { x: 2000, y: 2000, z: 10_000 },
                yaw: 0,
                pitch: 0,
            }),
            s.next_free_id == 108,
            s.entities@.len() == 108,
            s.ambient_light == (crate::light::Vec4 { x: 0, y: 0, z: 0, w: 1000 }),
            s.light == (Light {
                pos: crate::light::Vec4 { x: 3000, y: 3000, z: 0, w: 1000 },
                diffuse: crate::light::Vec4 { x: 700, y: 700, z: 700, w: 1000 },
                specular: crate::light::Vec4 { x: 700, y: 700, z: 700, w: 1000 },
                constant_attenuation: 1000,
                linear_attenuation: 400,
                quadratic_attenuation: 220,
                spot_cutoff: crate::math::PI_MICRO,
                spot_exponent: 0,
                spot_direction: Vec3 { x: 0, y: 0, z: 0 },
            }),
    {
        let mut state = GameState::new(
            Camera::new(Vec3::xyz(2000, 2000, 10_000)),
            Gravity::Constant(Vec3::xyz(0, -9810, 0)),
        );
        let light_pos = Vec3::xyz(3000, 3000, 0);
        // walls along each axis, two faces per entity
        let he = Vec3::xyz(1000, 20_000, 20_000);
        let plane = Component::new(Shape::Cuboid { half_extents: he }, wall_mesh);
        let _ = state.add_entity(
            EntityBuilder::new_static(300, 700).component(
                plane.pos(Vec3::xyz(-20_000, 17_000, 0)),
            ).component(plane.pos(Vec3::xyz(20_000, 17_000, 0))),
        );
        let he = Vec3::xyz(20_000, 20_000, 1000);
        let plane = Component::new(Shape::Cuboid { half_extents: he }, wall_mesh);
        let _ = state.add_entity(
            EntityBuilder::new_static(300, 700).component(
                plane.pos(Vec3::xyz(0, 17_000, -20_000)),
            ).component(plane.pos(Vec3::xyz(0, 17_000, 20_000))),
        );
        let he = Vec3::xyz(20_000, 1000, 20_000);
        let plane = Component::new(Shape::Cuboid { half_extents: he }, wall_mesh);
        let _ = state.add_entity(
            EntityBuilder::new_static(300, 700).component(
                plane.pos(Vec3::xyz(0, -3000, 0)),
            ).component(plane.pos(Vec3::xyz(0, 37_000, 0))),
        );
        // a loose stack of tables
        build_table(&mut state, top_mesh, leg_mesh, Vec3::xyz(0, 1000, 0));
        build_table(&mut state, top_mesh, leg_mesh, Vec3::xyz(300, 3000, 100));
        build_table(&mut state, top_mesh, leg_mesh, Vec3::xyz(-500, 6000, -400));
        build_table(&mut state, top_mesh, leg_mesh, Vec3::xyz(500, 9000, 400));
        // and a ten-by-ten grid of them overhead
        let mut x: u32 = 0;
        while x < 10
            invariant
                x <= 10,
                state.wf(),
                state.gravity == Gravity::Constant(Vec3 { x: 0, y: -9810i64, z: 0 }),
                state.camera == (Camera {
                    pos: Vec3 { x: 2000, y: 2000, z: 10_000 },
                    yaw: 0,
                    pitch: 0,
                }),
                state.entities@.len() == 7 + x * 10,
                state.next_free_id == 7 + x * 10,
            decreases 10 - x,
        {
            let mut z: u32 = 0;
            while z < 10
                invariant
                    x < 10,
                    z <= 10,
                    state.wf(),
                    state.gravity == Gravity::Constant(Vec3 { x: 0, y: -9810i64, z: 0 }),
                    state.camera == (Camera {
                        pos: Vec3 { x: 2000, y: 2000, z: 10_000 },
                        yaw: 0,
                        pitch: 0,
                    }),
                    state.entities@.len() == 7 + x * 10 + z,
                    state.next_free_id == 7 + x * 10 + z,
                decreases 10 - z,
            {
                let px: i64 = (x as i64) * 2000 - 5000;
                let pz: i64 = (z as i64) * 2000 - 5000;
                build_table(&mut state, top_mesh, leg_mesh, Vec3::xyz(px, 12_000, pz));
                z = z + 1;
            }
            x = x + 1;
        }
        // the light, with a small marker ball at its position
        let _ = state.add_entity(
            EntityBuilder::new_static(300, 700).component(
                Component::new(Shape::Ball { radius: 100 }, marker_mesh),
            ).pos(light_pos),
        );
        state.set_ambient_light(crate::light::Vec4::xyzw(0, 0, 0, 1000));
        state.set_light(
            Light::new_point_light(
                light_pos,
                crate::light::Vec4::xyzw(700, 700, 700, 1000),
                crate::light::Vec4::xyzw(700, 700, 700, 1000),
                1000,
                400,
                220,
            ),
        );
        state
    }
}

/// Which attenuation coefficient the wheel adjusts.
#[derive(Clone, Copy, Debug, PartialEq, Eq, Structural)]
pub enum Mode {
    LightConstant,
    LightLinear,
    LightQuadratic,
}

/// The mode after the first `n` events: each typed digit selects a
/// coefficient.
pub open spec fn spec_mode_after(m: Mode, events: Seq<Event>, n: int) -> Mode
    decreases n,
{
    if n <= 0 {
        m
    } else {
        let prev = spec_mode_after(m, events, n - 1);
        match events[n - 1] {
            Event::ReceivedCharacter(c) => if c == '1' {
                Mode::LightConstant
            } else if c == '2' {
                Mode::LightLinear
            } else if c == '3' {
                Mode::LightQuadratic
            } else {
                prev
            },
            _ => prev,
        }
    }
}

/// The wheel scroll accumulated over the first `n` events, clamped to
/// the tracked range at every step.
pub open spec fn spec_scroll_after(acc: int, events: Seq<Event>, n: int) -> int
    decreases n,
{
    if n <= 0 {
        acc
    } else {
        let prev = spec_scroll_after(acc, events, n - 1);
        match events[n - 1] {
            Event::MouseWheel { dx, dy } => spec_clamp(prev + dy, ATTENUATION_LIMIT as int),
            _ => prev,
        }
    }
}

/// The light after one handler tick: the selected attenuation
/// coefficient moved by the scaled wheel scroll, clamped.
pub open spec fn spec_light_adjusted(l: Light, m: Mode, scroll: int) -> Light {
    let delta = ATTENUATION_PER_PIXEL * scroll;
    match m {
        Mode::LightConstant => Light {
            constant_attenuation: spec_clamp(
                l.constant_attenuation + delta,
                ATTENUATION_LIMIT as int,
            ) as i64,
            ..l
        },
        Mode::LightLinear => Light {
            linear_attenuation: spec_clamp(
                l.linear_attenuation + delta,
                ATTENUATION_LIMIT as int,
            ) as i64,
            ..l
        },
        Mode::LightQuadratic => Light {
            quadratic_attenuation: spec_clamp(
                l.quadratic_attenuation + delta,
                ATTENUATION_LIMIT as int,
            ) as i64,
            ..l
        },
    }
}

/// Adjusts one attenuation coefficient of the scene light from the
/// mouse wheel; typed digits select which coefficient.
pub struct LightHandler {
    pub mode: Mode,
}

impl LightHandler {
    /// A handler starting on the constant coefficient.
    pub fn new() -> (h: LightHandler)
        ensures
            h.mode == Mode::LightConstant,
    {
        LightHandler { mode: Mode::LightConstant }
    }

    /// One tick of the handler: folds the events into the mode and
    /// the scroll amount, then moves the selected coefficient of the
    /// state's light.
    pub fn tick(&mut self, state: &mut GameState, events: &Vec<Event>)
        requires
            old(state).wf(),
        ensures
            final(state).wf(),
            final(self).mode == spec_mode_after(old(self).mode, events@, events@.len() as int),
            *final(state) == (GameState {
                light: spec_light_adjusted(
                    old(state).light,
                    final(self).mode,
                    spec_scroll_after(0, events@, events@.len() as int),
                ),
                ..*old(state)
            }),
    {
        let n = events.len();
        let mut scroll: i64 = 0;
        let mut k: usize = 0;
        while k < n
            invariant
                n == events@.len(),
                k <= n,
                self.mode == spec_mode_after(old(self).mode, events@, k as int),
                scroll == spec_scroll_after(0, events@, k as int),
                -ATTENUATION_LIMIT <= scroll <= ATTENUATION_LIMIT,
                *state == *old(state),
            decreases n - k,
        {
            match events[k] {
                Event::MouseWheel { dx: _, dy } => {
                    scroll = clamp_i128((scroll as i128) + (dy as i128), ATTENUATION_LIMIT);
                },
                Event::ReceivedCharacter(c) => {
                    if c == '1' {
                        self.mode = Mode::LightConstant;
                    } else if c == '2' {
                        self.mode = Mode::LightLinear;
                    } else if c == '3' {
                        self.mode = Mode::LightQuadratic;
                    }
                },
                _ => {},
            }
            k = k + 1;
        }
        let mut light = state.light();
        let delta: i128 = (ATTENUATION_PER_PIXEL as i128) * (scroll as i128);
        match self.mode {
            Mode::LightConstant => {
                light.constant_attenuation = clamp_i128(
                    (light.constant_attenuation as i128) + delta,
                    ATTENUATION_LIMIT,
                );
            },
            Mode::LightLinear => {
                light.linear_attenuation = clamp_i128(
                    (light.linear_attenuation as i128) + delta,
                    ATTENUATION_LIMIT,
                );
            },
            Mode::LightQuadratic => {
                light.quadratic_attenuation = clamp_i128(
                    (light.quadratic_attenuation as i128) + delta,
                    ATTENUATION_LIMIT,
                );
            },
        }
        state.set_light(light);
    }

    /// The label of the coefficient currently selected.
    pub fn render_label(&self) -> (s: &'static str)
        ensures
            self.mode == Mode::LightConstant ==> s@ == "constant attenuation"@,
            self.mode == Mode::LightLinear ==> s@ == "linear attenuation"@,
            self.mode == Mode::LightQuadratic ==> s@ == "quadratic attenuation"@,
    {
        match self.mode {
            Mode::LightConstant => "constant attenuation",
            Mode::LightLinear => "linear attenuation",
            Mode::LightQuadratic => "quadratic attenuation",
        }
    }
}

} // verus!
