//! The rigid-body world: the facade the simulation owns.
//!
//! Bodies, colliders and joints live in arenas indexed by opaque
//! handles; a removed slot is never reused, so stale handles resolve to
//! nothing instead of to another object.  Stepping integrates every
//! dynamic body by one fixed timestep with semi-implicit Euler in
//! fixed-point arithmetic; the contract of `step` pins the new state of
//! every body exactly.

use vstd::prelude::*;

use crate::math::{
    spec_clamp, spec_div_trunc, clamp_i128, div_trunc_i128, lemma_abs_mul_le,
    lemma_div_trunc_abs_le, Vec3, VEC_LIMIT, MASS_LIMIT, FORCE_LIMIT,
};

verus! {

/// Handle of a rigid body in a `World`.
pub type BodyHandle = usize;

/// Handle of a collider in a `World`.
pub type ColliderHandle = usize;

/// Handle of a joint in a `World`.
pub type JointHandle = usize;

/// Longest timestep the world accepts, in nanoseconds (ten seconds).
pub const DT_LIMIT: u64 = 10_000_000_000;

/// Whether a body takes part in integration.
#[derive(Clone, Copy, Debug, PartialEq, Eq, Structural)]
pub enum BodyStatus {
    /// Immovable; treated as having infinite mass.
    Static,
    /// Moved by forces and velocity.
    Dynamic,
}

/// One rigid body.  Positions and velocities are milli units,
/// rotations milli radians per axis, the mass milli mass units.
#[derive(Clone, Copy, Debug, PartialEq, Eq, Structural)]
pub struct Body {
    pub pos: Vec3,
    pub rot: Vec3,
    pub vel: Vec3,
    pub ang_vel: Vec3,
    pub status: BodyStatus,
    /// Finite mass in milli units; `0` exactly for a static body.
    pub mass: i64,
    /// Force accumulated since the last step, cleared by `step`.
    pub force: Vec3,
}

/// The kind of constraint a joint enforces.
#[derive(Clone, Copy, Debug, PartialEq, Eq, Structural)]
pub enum JointKind {
    /// No relative motion between the two bodies.
    Fixed,
    /// Free rotation around a shared anchor point.
    BallInSocket,
}

/// A constraint between two bodies, with an anchor local to each.
#[derive(Clone, Copy, Debug, PartialEq, Eq, Structural)]
pub struct Joint {
    pub kind: JointKind,
    pub body_a: BodyHandle,
    pub anchor_a: Vec3,
    pub body_b: BodyHandle,
    pub anchor_b: Vec3,
}

/// Contact material and shape registration of a body.
#[derive(Clone, Copy, Debug, PartialEq, Eq, Structural)]
pub struct Collider {
    pub body: BodyHandle,
    pub restitution: i64,
    pub friction: i64,
}

/// Whether a force vector is within what the accumulator tracks.
pub open spec fn force_in_range(f: Vec3) -> bool {
    &&& -FORCE_LIMIT <= f.x <= FORCE_LIMIT
    &&& -FORCE_LIMIT <= f.y <= FORCE_LIMIT
    &&& -FORCE_LIMIT <= f.z <= FORCE_LIMIT
}

impl Body {
    /// Well-formed body: all state within the ranges the world tracks,
    /// and the mass consistent with the status.
    pub open spec fn wf(self) -> bool {
        &&& self.pos.in_range()
        &&& self.rot.in_range()
        &&& self.vel.in_range()
        &&& self.ang_vel.in_range()
        &&& force_in_range(self.force)
        &&& match self.status {
            BodyStatus::Static => self.mass == 0,
            BodyStatus::Dynamic => 0 < self.mass <= MASS_LIMIT,
        }
    }

    /// A body that gravity can move: dynamic, hence of finite
    /// positive mass.
    pub open spec fn movable(self) -> bool {
        self.status is Dynamic
    }

    /// A dynamic body at rest at `pos` with mass `mass`.
    pub fn dynamic_at(pos: Vec3, mass: i64) -> (b: Body)
        requires
            pos.in_range(),
            0 < mass <= MASS_LIMIT,
        ensures
            b.wf(),
            b == (Body {
                pos,
                rot: Vec3 { x: 0, y: 0, z: 0 },
                vel: Vec3 { x: 0, y: 0, z: 0 },
                ang_vel: Vec3 { x: 0, y: 0, z: 0 },
                status: BodyStatus::Dynamic,
                mass,
                force: Vec3 { x: 0, y: 0, z: 0 },
            }),
    {
        Body {
            pos,
            rot: Vec3::new(),
            vel: Vec3::new(),
            ang_vel: Vec3::new(),
            status: BodyStatus::Dynamic,
            mass,
            force: Vec3::new(),
        }
    }

    /// A static body at `pos`.
    pub fn static_at(pos: Vec3) -> (b: Body)
        requires
            pos.in_range(),
        ensures
            b.wf(),
            b == (Body {
                pos,
                rot: Vec3 { x: 0, y: 0, z: 0 },
                vel: Vec3 { x: 0, y: 0, z: 0 },
                ang_vel: Vec3 { x: 0, y: 0, z: 0 },
                status: BodyStatus::Static,
                mass: 0,
                force: Vec3 { x: 0, y: 0, z: 0 },
            }),
    {
        Body {
            pos,
            rot: Vec3::new(),
            vel: Vec3::new(),
            ang_vel: Vec3::new(),
            status: BodyStatus::Static,
            mass: 0,
            force: Vec3::new(),
        }
    }
}

/// The velocity of one axis after one step: the old velocity plus the
/// acceleration from constant gravity and from the accumulated force,
/// clamped to the tracked range.
pub open spec fn spec_new_vel(v: int, f: int, m: int, g: int, dt: int) -> int {
    spec_clamp(
        v + spec_div_trunc(g * dt, 1_000_000_000) + spec_div_trunc(f * dt, m * 1_000_000),
        VEC_LIMIT as int,
    )
}

/// The position of one axis after one step: advanced by the new
/// velocity for the whole timestep, clamped to the tracked range.
pub open spec fn spec_new_pos(p: int, v: int, dt: int) -> int {
    spec_clamp(p + spec_div_trunc(v * dt, 1_000_000_000), VEC_LIMIT as int)
}

/// One integration step of a single body: a static body only has its
/// force accumulator cleared; a dynamic body gets its velocity from
/// the forces, then its position and rotation from the velocities.
pub open spec fn spec_step_body(b: Body, g: Vec3, dt: int) -> Body {
    match b.status {
        BodyStatus::Static => Body { force: Vec3 { x: 0, y: 0, z: 0 }, ..b },
        BodyStatus::Dynamic => {
            let vx = spec_new_vel(b.vel.x as int, b.force.x as int, b.mass as int, g.x as int, dt);
            let vy = spec_new_vel(b.vel.y as int, b.force.y as int, b.mass as int, g.y as int, dt);
            let vz = spec_new_vel(b.vel.z as int, b.force.z as int, b.mass as int, g.z as int, dt);
            Body {
                pos: Vec3 {
                    x: spec_new_pos(b.pos.x as int, vx, dt) as i64,
                    y: spec_new_pos(b.pos.y as int, vy, dt) as i64,
                    z: spec_new_pos(b.pos.z as int, vz, dt) as i64,
                },
                rot: Vec3 {
                    x: spec_new_pos(b.rot.x as int, b.ang_vel.x as int, dt) as i64,
                    y: spec_new_pos(b.rot.y as int, b.ang_vel.y as int, dt) as i64,
                    z: spec_new_pos(b.rot.z as int, b.ang_vel.z as int, dt) as i64,
                },
                vel: Vec3 { x: vx as i64, y: vy as i64, z: vz as i64 },
                ang_vel: b.ang_vel,
                status: b.status,
                mass: b.mass,
                force: Vec3 { x: 0, y: 0, z: 0 },
            }
        },
    }
}

/// The velocity of one axis after one step; matches `spec_new_vel`.
fn new_vel_axis(v: i64, f: i64, m: i64, g: i64, dt: u64) -> (r: i64)
    requires
        -VEC_LIMIT <= v <= VEC_LIMIT,
        -FORCE_LIMIT <= f <= FORCE_LIMIT,
        0 < m <= MASS_LIMIT,
        -VEC_LIMIT <= g <= VEC_LIMIT,
        dt <= DT_LIMIT,
    ensures
        r == spec_new_vel(v as int, f as int, m as int, g as int, dt as int),
        -VEC_LIMIT <= r <= VEC_LIMIT,
{
    proof {
        lemma_abs_mul_le(g as int, dt as int, VEC_LIMIT as int, DT_LIMIT as int);
        lemma_abs_mul_le(f as int, dt as int, FORCE_LIMIT as int, DT_LIMIT as int);
        lemma_div_trunc_abs_le(
            g as int * dt as int,
            1_000_000_000,
            VEC_LIMIT as int * DT_LIMIT as int,
        );
        lemma_div_trunc_abs_le(
            f as int * dt as int,
            m as int * 1_000_000,
            FORCE_LIMIT as int * DT_LIMIT as int,
        );
        lemma_abs_mul_le(m as int, 1, MASS_LIMIT as int, 1);
    }
    let dvg: i128 = div_trunc_i128((g as i128) * (dt as i128), 1_000_000_000);
    let dvf: i128 = div_trunc_i128((f as i128) * (dt as i128), (m as i128) * 1_000_000);
    clamp_i128((v as i128) + dvg + dvf, VEC_LIMIT)
}

/// The position of one axis after one step; matches `spec_new_pos`.
fn new_pos_axis(p: i64, v: i64, dt: u64) -> (r: i64)
    requires
        -VEC_LIMIT <= p <= VEC_LIMIT,
        -VEC_LIMIT <= v <= VEC_LIMIT,
        dt <= DT_LIMIT,
    ensures
        r == spec_new_pos(p as int, v as int, dt as int),
        -VEC_LIMIT <= r <= VEC_LIMIT,
{
    proof {
        lemma_abs_mul_le(v as int, dt as int, VEC_LIMIT as int, DT_LIMIT as int);
        lemma_div_trunc_abs_le(
            v as int * dt as int,
            1_000_000_000,
            VEC_LIMIT as int * DT_LIMIT as int,
        );
    }
    let dp: i128 = div_trunc_i128((v as i128) * (dt as i128), 1_000_000_000);
    clamp_i128((p as i128) + dp, VEC_LIMIT)
}

/// One integration step of a single body; matches `spec_step_body`.
fn step_body(b: &Body, g: Vec3, dt: u64) -> (r: Body)
    requires
        b.wf(),
        g.in_range(),
        dt <= DT_LIMIT,
    ensures
        r == spec_step_body(*b, g, dt as int),
        r.wf(),
{
    match b.status {
        BodyStatus::Static => Body { force: Vec3::new(), ..*b },
        BodyStatus::Dynamic => {
            let vx = new_vel_axis(b.vel.x, b.force.x, b.mass, g.x, dt);
            let vy = new_vel_axis(b.vel.y, b.force.y, b.mass, g.y, dt);
            let vz = new_vel_axis(b.vel.z, b.force.z, b.mass, g.z, dt);
            Body {
                pos: Vec3 {
                    x: new_pos_axis(b.pos.x, vx, dt),
                    y: new_pos_axis(b.pos.y, vy, dt),
                    z: new_pos_axis(b.pos.z, vz, dt),
                },
                rot: Vec3 {
                    x: new_pos_axis(b.rot.x, b.ang_vel.x, dt),
                    y: new_pos_axis(b.rot.y, b.ang_vel.y, dt),
                    z: new_pos_axis(b.rot.z, b.ang_vel.z, dt),
                },
                vel: Vec3 { x: vx, y: vy, z: vz },
                ang_vel: b.ang_vel,
                status: b.status,
                mass: b.mass,
                force: Vec3::new(),
            }
        },
    }
}

/// The rigid-body world.
pub struct World {
    pub bodies: Vec<Option<Body>>,
    pub joints: Vec<Option<Joint>>,
    pub colliders: Vec<Option<Collider>>,
    /// Constant gravity acceleration, milli units per second squared.
    pub gravity: Vec3,
    /// The fixed timestep `step` integrates by, in nanoseconds.
    pub timestep_ns: u64,
}

impl World {
    /// Well-formed world: every live body well-formed, gravity and
    /// timestep within the tracked ranges.
    pub open spec fn wf(self) -> bool {
        &&& forall|i: int|
            0 <= i < self.bodies@.len() && self.bodies@[i] is Some
                ==> #[trigger] self.bodies@[i]->Some_0.wf()
        &&& self.gravity.in_range()
        &&& self.timestep_ns <= DT_LIMIT
    }

    /// The body a handle resolves to, or nothing.
    pub open spec fn spec_body(self, h: BodyHandle) -> Option<Body> {
        if h < self.bodies@.len() {
            self.bodies@[h as int]
        } else {
            None
        }
    }

    /// An empty world with zero gravity.
    pub fn new() -> (w: World)
        ensures
            w.wf(),
            w.bodies@.len() == 0,
            w.joints@.len() == 0,
            w.colliders@.len() == 0,
            w.gravity == (Vec3 { x: 0, y: 0, z: 0 }),
            w.timestep_ns == 0,
    {
        World {
            bodies: Vec::new(),
            joints: Vec::new(),
            colliders: Vec::new(),
            gravity: Vec3::new(),
            timestep_ns: 0,
        }
    }

    /// Adds a body; the returned handle resolves to it.
    pub fn add_body(&mut self, b: Body) -> (h: BodyHandle)
        requires
            old(self).wf(),
            b.wf(),
        ensures
            final(self).wf(),
            h == old(self).bodies@.len(),
            final(self).bodies@ == old(self).bodies@.push(Some(b)),
            final(self).joints@ == old(self).joints@,
            final(self).colliders@ == old(self).colliders@,
            final(self).gravity == old(self).gravity,
            final(self).timestep_ns == old(self).timestep_ns,
    {
        let h = self.bodies.len();
        self.bodies.push(Some(b));
        h
    }

    /// Adds a collider; the returned handle resolves to it.
    pub fn add_collider(&mut self, c: Collider) -> (h: ColliderHandle)
        requires
            old(self).wf(),
        ensures
            final(self).wf(),
            h == old(self).colliders@.len(),
            final(self).colliders@ == old(self).colliders@.push(Some(c)),
            final(self).bodies@ == old(self).bodies@,
            final(self).joints@ == old(self).joints@,
            final(self).gravity == old(self).gravity,
            final(self).timestep_ns == old(self).timestep_ns,
    {
        let h = self.colliders.len();
        self.colliders.push(Some(c));
        h
    }

    /// Adds a joint; the returned handle resolves to it.
    pub fn add_joint(&mut self, j: Joint) -> (h: JointHandle)
        requires
            old(self).wf(),
        ensures
            final(self).wf(),
            h == old(self).joints@.len(),
            final(self).joints@ == old(self).joints@.push(Some(j)),
            final(self).bodies@ == old(self).bodies@,
            final(self).colliders@ == old(self).colliders@,
            final(self).gravity == old(self).gravity,
            final(self).timestep_ns == old(self).timestep_ns,
    {
        let h = self.joints.len();
        self.joints.push(Some(j));
        h
    }

    /// The body behind a handle, if the handle is live.
    pub fn rigid_body(&self, h: BodyHandle) -> (r: Option<Body>)
        ensures
            r == self.spec_body(h),
    {
        if h < self.bodies.len() {
            self.bodies[h]
        } else {
            None
        }
    }

    /// Removes the body behind a live handle; a dead handle is a no-op.
    pub fn remove_body(&mut self, h: BodyHandle)
        requires
            old(self).wf(),
        ensures
            final(self).wf(),
            final(self).bodies@ == if h < old(self).bodies@.len() {
                old(self).bodies@.update(h as int, None::<Body>)
            } else {
                old(self).bodies@
            },
            final(self).joints@ == old(self).joints@,
            final(self).colliders@ == old(self).colliders@,
            final(self).gravity == old(self).gravity,
            final(self).timestep_ns == old(self).timestep_ns,
    {
        if h < self.bodies.len() {
            self.bodies.set(h, None);
        }
    }

    /// Removes the collider behind a live handle; a dead handle is a
    /// no-op.
    pub fn remove_collider(&mut self, h: ColliderHandle)
        requires
            old(self).wf(),
        ensures
            final(self).wf(),
            final(self).colliders@ == if h < old(self).colliders@.len() {
                old(self).colliders@.update(h as int, None::<Collider>)
            } else {
                old(self).colliders@
            },
            final(self).bodies@ == old(self).bodies@,
            final(self).joints@ == old(self).joints@,
            final(self).gravity == old(self).gravity,
            final(self).timestep_ns == old(self).timestep_ns,
    {
        if h < self.colliders.len() {
            self.colliders.set(h, None);
        }
    }

    /// Removes the joint behind a live handle; a dead handle is a
    /// no-op.
    pub fn remove_joint(&mut self, h: JointHandle)
        requires
            old(self).wf(),
        ensures
            final(self).wf(),
            final(self).joints@ == if h < old(self).joints@.len() {
                old(self).joints@.update(h as int, None::<Joint>)
            } else {
                old(self).joints@
            },
            final(self).bodies@ == old(self).bodies@,
            final(self).colliders@ == old(self).colliders@,
            final(self).gravity == old(self).gravity,
            final(self).timestep_ns == old(self).timestep_ns,
    {
        if h < self.joints.len() {
            self.joints.set(h, None);
        }
    }

    /// Replaces the position of the body behind a live handle.
    pub fn set_body_pos(&mut self, h: BodyHandle, v: Vec3)
        requires
            old(self).wf(),
            v.in_range(),
        ensures
            final(self).wf(),
            final(self).bodies@ == match old(self).spec_body(h) {
                Some(b) => old(self).bodies@.update(h as int, Some(Body { pos: v, ..b })),
                None => old(self).bodies@,
            },
            final(self).joints@ == old(self).joints@,
            final(self).colliders@ == old(self).colliders@,
            final(self).gravity == old(self).gravity,
            final(self).timestep_ns == old(self).timestep_ns,
    {
        if h < self.bodies.len() {
            if let Some(b) = self.bodies[h] {
                proof {
                    assert(b.wf());
                }
                self.bodies.set(h, Some(Body { pos: v, ..b }));
            }
        }
    }

    /// Replaces the rotation of the body behind a live handle.
    pub fn set_body_rot(&mut self, h: BodyHandle, v: Vec3)
        requires
            old(self).wf(),
            v.in_range(),
        ensures
            final(self).wf(),
            final(self).bodies@ == match old(self).spec_body(h) {
                Some(b) => old(self).bodies@.update(h as int, Some(Body { rot: v, ..b })),
                None => old(self).bodies@,
            },
            final(self).joints@ == old(self).joints@,
            final(self).colliders@ == old(self).colliders@,
            final(self).gravity == old(self).gravity,
            final(self).timestep_ns == old(self).timestep_ns,
    {
        if h < self.bodies.len() {
            if let Some(b) = self.bodies[h] {
                proof {
                    assert(b.wf());
                }
                self.bodies.set(h, Some(Body { rot: v, ..b }));
            }
        }
    }

    /// Replaces the linear velocity of the body behind a live handle.
    pub fn set_body_vel(&mut self, h: BodyHandle, v: Vec3)
        requires
            old(self).wf(),
            v.in_range(),
        ensures
            final(self).wf(),
            final(self).bodies@ == match old(self).spec_body(h) {
                Some(b) => old(self).bodies@.update(h as int, Some(Body { vel: v, ..b })),
                None => old(self).bodies@,
            },
            final(self).joints@ == old(self).joints@,
            final(self).colliders@ == old(self).colliders@,
            final(self).gravity == old(self).gravity,
            final(self).timestep_ns == old(self).timestep_ns,
    {
        if h < self.bodies.len() {
            if let Some(b) = self.bodies[h] {
                proof {
                    assert(b.wf());
                }
                self.bodies.set(h, Some(Body { vel: v, ..b }));
            }
        }
    }

    /// Replaces the angular velocity of the body behind a live handle.
    pub fn set_body_ang_vel(&mut self, h: BodyHandle, v: Vec3)
        requires
            old(self).wf(),
            v.in_range(),
        ensures
            final(self).wf(),
            final(self).bodies@ == match old(self).spec_body(h) {
                Some(b) => old(self).bodies@.update(h as int, Some(Body { ang_vel: v, ..b })),
                None => old(self).bodies@,
            },
            final(self).joints@ == old(self).joints@,
            final(self).colliders@ == old(self).colliders@,
            final(self).gravity == old(self).gravity,
            final(self).timestep_ns == old(self).timestep_ns,
    {
        if h < self.bodies.len() {
            if let Some(b) = self.bodies[h] {
                proof {
                    assert(b.wf());
                }
                self.bodies.set(h, Some(Body { ang_vel: v, ..b }));
            }
        }
    }

    /// Adds `f` to the force accumulator of the body behind a live
    /// handle, clamping each component to the tracked force range.
    pub fn apply_force(&mut self, h: BodyHandle, f: Vec3)
        requires
            old(self).wf(),
            force_in_range(f),
        ensures
            final(self).wf(),
            final(self).bodies@ == match old(self).spec_body(h) {
                Some(b) => old(self).bodies@.update(
                    h as int,
                    Some(Body { force: spec_accumulate_force(b.force, f), ..b }),
                ),
                None => old(self).bodies@,
            },
            final(self).joints@ == old(self).joints@,
            final(self).colliders@ == old(self).colliders@,
            final(self).gravity == old(self).gravity,
            final(self).timestep_ns == old(self).timestep_ns,
    {
        if h < self.bodies.len() {
            if let Some(b) = self.bodies[h] {
                proof {
                    assert(b.wf());
                }
                let acc = Vec3 {
                    x: clamp_i128((b.force.x as i128) + (f.x as i128), FORCE_LIMIT),
                    y: clamp_i128((b.force.y as i128) + (f.y as i128), FORCE_LIMIT),
                    z: clamp_i128((b.force.z as i128) + (f.z as i128), FORCE_LIMIT),
                };
                self.bodies.set(h, Some(Body { force: acc, ..b }));
            }
        }
    }

    /// Replaces the constant gravity acceleration.
    pub fn set_gravity(&mut self, v: Vec3)
        requires
            old(self).wf(),
            v.in_range(),
        ensures
            final(self).wf(),
            *final(self) == (World { gravity: v, ..*old(self) }),
    {
        self.gravity = v;
    }

    /// Replaces the fixed timestep.
    pub fn set_timestep(&mut self, dt_ns: u64)
        requires
            old(self).wf(),
            dt_ns <= DT_LIMIT,
        ensures
            final(self).wf(),
            *final(self) == (World { timestep_ns: dt_ns, ..*old(self) }),
    {
        self.timestep_ns = dt_ns;
    }

    /// Integrates every live body by one fixed timestep.
    pub fn step(&mut self)
        requires
            old(self).wf(),
        ensures
            final(self).wf(),
            final(self).bodies@.len() == old(self).bodies@.len(),
            forall|i: int|
                0 <= i < final(self).bodies@.len() ==> final(self).bodies@[i] == match old(self).bodies@[i] {
                    Some(b) => Some(
                        spec_step_body(b, old(self).gravity, old(self).timestep_ns as int),
                    ),
                    None => None::<Body>,
                },
            final(self).joints@ == old(self).joints@,
            final(self).colliders@ == old(self).colliders@,
            final(self).gravity == old(self).gravity,
            final(self).timestep_ns == old(self).timestep_ns,
    {
        let g = self.gravity;
        let dt = self.timestep_ns;
        let n = self.bodies.len();
        let mut i: usize = 0;
        while i < n
            invariant
                n == self.bodies@.len(),
                n == old(self).bodies@.len(),
                i <= n,
                g == old(self).gravity,
                dt == old(self).timestep_ns,
                g.in_range(),
                dt <= DT_LIMIT,
                forall|k: int|
                    i <= k < n ==> self.bodies@[k] == old(self).bodies@[k],
                forall|k: int|
                    0 <= k < i ==> self.bodies@[k] == match old(self).bodies@[k] {
                        Some(b) => Some(spec_step_body(b, g, dt as int)),
                        None => None::<Body>,
                    },
                forall|k: int|
                    0 <= k < n && self.bodies@[k] is Some
                        ==> #[trigger] self.bodies@[k]->Some_0.wf(),
                self.joints@ == old(self).joints@,
                self.colliders@ == old(self).colliders@,
                self.gravity == old(self).gravity,
                self.timestep_ns == old(self).timestep_ns,
            decreases n - i,
        {
            if let Some(b) = self.bodies[i] {
                let stepped = step_body(&b, g, dt);
                self.bodies.set(i, Some(stepped));
            }
            i = i + 1;
        }
    }
}

/// Componentwise force accumulation, clamped to the tracked range.
pub open spec fn spec_accumulate_force(acc: Vec3, f: Vec3) -> Vec3 {
    Vec3 {
        x: spec_clamp(acc.x + f.x, FORCE_LIMIT as int) as i64,
        y: spec_clamp(acc.y + f.y, FORCE_LIMIT as int) as i64,
        z: spec_clamp(acc.z + f.z, FORCE_LIMIT as int) as i64,
    }
}

} // verus!
