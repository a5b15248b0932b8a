//! Entities: multi-component rigid assemblies and their staged
//! construction.
//!
//! An `EntityBuilder` accumulates components (shape, local transform,
//! mesh) and joints between them, then commits the whole assembly to a
//! `World` at once.  A committed `Entity` owns only handles into the
//! world, plus the mesh list for rendering and a cached total mass.

use vstd::prelude::*;

use crate::math::{spec_clamp, clamp_i128, lemma_abs_mul_le, Vec3, VEC_LIMIT, MASS_LIMIT, PI_MILLI};
use crate::mesh::{MeshId, RenderItem};
use crate::world::{
    Body, BodyHandle, BodyStatus, Collider, ColliderHandle, Joint, JointHandle, JointKind, World,
};

verus! {

/// Largest shape extent (a radius or a half-extent) the builder
/// accepts, in milli units.
pub const SHAPE_LIMIT: i64 = 1_000_000;

/// Largest density the builder accepts, in milli units.
pub const DENSITY_LIMIT: i64 = 1_000_000_000;

/// Collision type of an entity: which collision shape a contact
/// solver builds for it.  Contact resolution lives outside this
/// crate, so the world carries the choice without reading it.
#[derive(Clone, Copy, Debug, PartialEq, Eq, Structural)]
pub enum Collision {
    /// The collision shape is one box around the whole assembly.
    Box,
    /// The collision shape is the sum of the component shapes.
    Compound,
}

/// A collision shape descriptor.
#[derive(Clone, Copy, Debug, PartialEq, Eq, Structural)]
pub enum Shape {
    /// A sphere of the given radius, milli units.
    Ball { radius: i64 },
    /// A box of the given half-extents, milli units.
    Cuboid { half_extents: Vec3 },
}

/// A position together with a rotation (Euler angles per axis, in
/// milli radians).
#[derive(Clone, Copy, Debug, PartialEq, Eq, Structural)]
pub struct Iso {
    pub pos: Vec3,
    pub rot: Vec3,
}

impl Iso {
    /// The identity transform.
    pub fn identity() -> (r: Iso)
        ensures
            r == (Iso { pos: Vec3 { x: 0, y: 0, z: 0 }, rot: Vec3 { x: 0, y: 0, z: 0 } }),
    {
        Iso { pos: Vec3::new(), rot: Vec3::new() }
    }

    /// Both parts within the tracked range.
    pub open spec fn in_range(self) -> bool {
        self.pos.in_range() && self.rot.in_range()
    }
}

impl Shape {
    /// A shape the builder accepts: positive extents, none above the
    /// shape limit.
    pub open spec fn wf(self) -> bool {
        match self {
            Shape::Ball { radius } => 0 < radius <= SHAPE_LIMIT,
            Shape::Cuboid { half_extents } => {
                &&& 0 < half_extents.x <= SHAPE_LIMIT
                &&& 0 < half_extents.y <= SHAPE_LIMIT
                &&& 0 < half_extents.z <= SHAPE_LIMIT
            },
        }
    }

    /// The enclosed volume in milli units: `4/3 * pi * r^3` for a
    /// ball, the product of the edge lengths for a box, each with the
    /// truncation its fixed-point division performs.
    pub open spec fn spec_volume(self) -> int {
        match self {
            Shape::Ball { radius } => 4 * PI_MILLI * radius * radius * radius / 3_000_000_000,
            Shape::Cuboid { half_extents } => 8 * half_extents.x * half_extents.y
                * half_extents.z / 1_000_000,
        }
    }

    /// The enclosed volume in milli units; matches `spec_volume`.
    pub fn volume(&self) -> (v: i64)
        requires
            self.wf(),
        ensures
            v == self.spec_volume(),
            0 <= v <= 8_000_000_000_000,
    {
        match *self {
            Shape::Ball { radius } => {
                let r = radius as i128;
                proof {
                    assert(0 <= 4 * (PI_MILLI as int) * r <= 12_568_000_000 && 0 <= 4 * (
                    PI_MILLI as int) * r * r <= 12_568_000_000_000_000 && 0 <= 4 * (
                    PI_MILLI as int) * r * r * r <= 12_568_000_000_000_000_000_000 && 4 * (
                    PI_MILLI as int) * r * r * r / 3_000_000_000 <= 8_000_000_000_000 && 0 <= 4 * (
                    PI_MILLI as int) * r * r * r / 3_000_000_000) by (nonlinear_arith)
                        requires
                            0 < r <= SHAPE_LIMIT,
                            SHAPE_LIMIT == 1_000_000,
                            PI_MILLI == 3142,
                    {}
                }
                ((4 * (PI_MILLI as i128) * r * r * r) / 3_000_000_000) as i64
            },
            Shape::Cuboid { half_extents } => {
                let hx = half_extents.x as i128;
                let hy = half_extents.y as i128;
                let hz = half_extents.z as i128;
                proof {
                    assert(0 <= 8 * hx <= 8_000_000 && 0 <= 8 * hx * hy <= 8_000_000_000_000 && 0
                        <= 8 * hx * hy * hz <= 8_000_000_000_000_000_000 && 8 * hx * hy * hz
                        / 1_000_000 <= 8_000_000_000_000 && 0 <= 8 * hx * hy * hz / 1_000_000)
                        by (nonlinear_arith)
                        requires
                            0 < hx <= SHAPE_LIMIT,
                            0 < hy <= SHAPE_LIMIT,
                            0 < hz <= SHAPE_LIMIT,
                            SHAPE_LIMIT == 1_000_000,
                    {}
                }
                ((8 * hx * hy * hz) / 1_000_000) as i64
            },
        }
    }
}

/// One rigid sub-part of an entity: a local transform, a collision
/// shape and a mesh.
#[derive(Clone, Copy, Debug, PartialEq, Eq, Structural)]
pub struct Component {
    pub iso: Iso,
    pub shape: Shape,
    pub mesh: MeshId,
}

impl Component {
    /// Acceptable to the builder.
    pub open spec fn wf(self) -> bool {
        self.iso.in_range() && self.shape.wf()
    }

    /// A component at the origin.
    pub fn new(shape: Shape, mesh: MeshId) -> (c: Component)
        ensures
            c == (Component { iso: Iso { pos: Vec3 { x: 0, y: 0, z: 0 }, rot: Vec3 { x: 0, y: 0, z: 0 } }, shape, mesh }),
    {
        Component { iso: Iso::identity(), shape, mesh }
    }

    /// A component at the origin, from an already shared shape.
    pub fn with_handle(shape: Shape, mesh: MeshId) -> (c: Component)
        ensures
            c == (Component { iso: Iso { pos: Vec3 { x: 0, y: 0, z: 0 }, rot: Vec3 { x: 0, y: 0, z: 0 } }, shape, mesh }),
    {
        Component { iso: Iso::identity(), shape, mesh }
    }

    /// A component with the given local transform.
    pub fn with_iso(iso: Iso, shape: Shape, mesh: MeshId) -> (c: Component)
        ensures
            c == (Component { iso, shape, mesh }),
    {
        Component { iso, shape, mesh }
    }

    /// A component with the given local transform, from an already
    /// shared shape.
    pub fn with_iso_handle(iso: Iso, shape: Shape, mesh: MeshId) -> (c: Component)
        ensures
            c == (Component { iso, shape, mesh }),
    {
        Component { iso, shape, mesh }
    }

    /// This component with the given local translation.
    pub fn pos(self, pos: Vec3) -> (c: Component)
        ensures
            c == (Component { iso: Iso { pos, rot: self.iso.rot }, ..self }),
    {
        Component { iso: Iso { pos, rot: self.iso.rot }, ..self }
    }

    /// This component with the given local rotation.
    pub fn rot(self, rot: Vec3) -> (c: Component)
        ensures
            c == (Component { iso: Iso { pos: self.iso.pos, rot }, ..self }),
    {
        Component { iso: Iso { pos: self.iso.pos, rot }, ..self }
    }
}

/// A joint recorded during assembly: component `b` hangs from
/// component `a`, with an anchor local to each side.
#[derive(Clone, Copy, Debug, PartialEq, Eq, Structural)]
pub struct JointSpec {
    pub kind: JointKind,
    pub a: usize,
    pub a_anchor: Vec3,
    pub b: usize,
    pub b_anchor: Vec3,
}

/// The reason a joint cannot be recorded.
#[derive(Clone, Copy, Debug, PartialEq, Eq, Structural)]
pub enum BuildError {
    /// The parent component index is out of range.
    UnknownComponent,
    /// The parent is itself the child side of a joint; only joints
    /// hanging directly off unjointed components are supported.
    NestedJoint,
}

/// Whether component `k` is the child (`b`) side of some recorded
/// joint.
pub open spec fn spec_is_joint_child(joints: Seq<JointSpec>, k: int) -> bool {
    exists|j: int| 0 <= j < joints.len() && (#[trigger] joints[j]).b == k
}

/// The first joint at or after position `j` whose child side is
/// component `k`, if any.
pub open spec fn spec_joint_of_from(joints: Seq<JointSpec>, k: int, j: int) -> Option<JointSpec>
    decreases joints.len() - j,
{
    if j < 0 || j >= joints.len() {
        None
    } else if joints[j].b == k {
        Some(joints[j])
    } else {
        spec_joint_of_from(joints, k, j + 1)
    }
}

/// The joint whose child side is component `k`, if any.
pub open spec fn spec_joint_of(joints: Seq<JointSpec>, k: int) -> Option<JointSpec> {
    spec_joint_of_from(joints, k, 0)
}

/// Whatever `spec_joint_of_from` finds is an element of the list.
proof fn lemma_joint_of_from_member(joints: Seq<JointSpec>, k: int, j: int)
    requires
        spec_joint_of_from(joints, k, j) is Some,
    ensures
        exists|m: int|
            0 <= m < joints.len() && joints[m] == spec_joint_of_from(joints, k, j)->Some_0,
    decreases joints.len() - j,
{
    if 0 <= j < joints.len() {
        if joints[j].b == k {
            assert(0 <= j < joints.len() && joints[j] == spec_joint_of_from(joints, k, j)->Some_0);
        } else {
            lemma_joint_of_from_member(joints, k, j + 1);
        }
    }
}

/// Helper struct to build an entity.
pub struct EntityBuilder {
    pub pos: Vec3,
    pub vel: Vec3,
    pub rot: Vec3,
    pub ang_vel: Vec3,
    /// `None` marks a static (immovable, infinite-mass) entity.
    pub density: Option<i64>,
    pub restitution: i64,
    pub friction: i64,
    pub collision: Collision,
    pub components: Vec<Component>,
    pub joints: Vec<JointSpec>,
}

impl EntityBuilder {
    /// A builder the committing functions accept: all transforms in
    /// range, all components acceptable, every joint between existing
    /// components, hanging a fresh child directly off an unjointed
    /// parent.
    pub open spec fn wf(self) -> bool {
        &&& self.pos.in_range()
        &&& self.vel.in_range()
        &&& self.rot.in_range()
        &&& self.ang_vel.in_range()
        &&& match self.density {
            Some(d) => 0 < d <= DENSITY_LIMIT,
            None => true,
        }
        &&& forall|k: int|
            0 <= k < self.components@.len() ==> (#[trigger] self.components@[k]).wf()
        &&& forall|j: int|
            0 <= j < self.joints@.len() ==> {
                let js = #[trigger] self.joints@[j];
                &&& js.a < js.b < self.components@.len()
                &&& js.a_anchor.in_range()
                &&& js.b_anchor.in_range()
                &&& !spec_is_joint_child(self.joints@, js.a as int)
            }
        &&& forall|j1: int, j2: int|
            0 <= j1 < j2 < self.joints@.len() ==> (#[trigger] self.joints@[j1]).b != (
            #[trigger] self.joints@[j2]).b
    }

    /// A fresh dynamic builder with no components.
    pub fn new(density: i64, restitution: i64, friction: i64) -> (b: EntityBuilder)
        requires
            0 < density <= DENSITY_LIMIT,
        ensures
            b.wf(),
            b.density == Some(density),
            b.restitution == restitution,
            b.friction == friction,
            b.collision == Collision::Compound,
            b.components@.len() == 0,
            b.joints@.len() == 0,
            b.pos == (Vec3 { x: 0, y: 0, z: 0 }),
            b.vel == (Vec3 { x: 0, y: 0, z: 0 }),
            b.rot == (Vec3 { x: 0, y: 0, z: 0 }),
            b.ang_vel == (Vec3 { x: 0, y: 0, z: 0 }),
    {
        EntityBuilder {
            pos: Vec3::new(),
            vel: Vec3::new(),
            rot: Vec3::new(),
            ang_vel: Vec3::new(),
            density: Some(density),
            restitution,
            friction,
            collision: Collision::Compound,
            components: Vec::new(),
            joints: Vec::new(),
        }
    }

    /// A fresh static builder with no components.
    pub fn new_static(restitution: i64, friction: i64) -> (b: EntityBuilder)
        ensures
            b.wf(),
            b.density == None::<i64>,
            b.restitution == restitution,
            b.friction == friction,
            b.collision == Collision::Compound,
            b.components@.len() == 0,
            b.joints@.len() == 0,
            b.pos == (Vec3 { x: 0, y: 0, z: 0 }),
            b.vel == (Vec3 { x: 0, y: 0, z: 0 }),
            b.rot == (Vec3 { x: 0, y: 0, z: 0 }),
            b.ang_vel == (Vec3 { x: 0, y: 0, z: 0 }),
    {
        EntityBuilder {
            pos: Vec3::new(),
            vel: Vec3::new(),
            rot: Vec3::new(),
            ang_vel: Vec3::new(),
            density: None,
            restitution,
            friction,
            collision: Collision::Compound,
            components: Vec::new(),
            joints: Vec::new(),
        }
    }

    /// Sets the position the entity is created at.
    pub fn pos(self, pos: Vec3) -> (b: EntityBuilder)
        requires
            pos.in_range(),
        ensures
            b == (EntityBuilder { pos, ..self }),
    {
        EntityBuilder { pos, ..self }
    }

    /// Sets the velocity the entity is created with.
    pub fn vel(self, vel: Vec3) -> (b: EntityBuilder)
        requires
            vel.in_range(),
        ensures
            b == (EntityBuilder { vel, ..self }),
    {
        EntityBuilder { vel, ..self }
    }

    /// Sets the rotation the entity is created with.
    pub fn rot(self, rot: Vec3) -> (b: EntityBuilder)
        requires
            rot.in_range(),
        ensures
            b == (EntityBuilder { rot, ..self }),
    {
        EntityBuilder { rot, ..self }
    }

    /// Sets the angular velocity the entity is created with.
    pub fn ang_vel(self, ang_vel: Vec3) -> (b: EntityBuilder)
        requires
            ang_vel.in_range(),
        ensures
            b == (EntityBuilder { ang_vel, ..self }),
    {
        EntityBuilder { ang_vel, ..self }
    }

    /// Appends a component without a joint.
    pub fn component(self, component: Component) -> (b: EntityBuilder)
        requires
            component.wf(),
        ensures
            b.components@ == self.components@.push(component),
            b.joints@ == self.joints@,
            b.pos == self.pos,
            b.vel == self.vel,
            b.rot == self.rot,
            b.ang_vel == self.ang_vel,
            b.density == self.density,
            b.restitution == self.restitution,
            b.friction == self.friction,
            b.collision == self.collision,
            self.wf() ==> b.wf(),
    {
        let mut components = self.components;
        components.push(component);
        EntityBuilder { components, ..self }
    }

    /// Sets the collision type of the entity.
    pub fn collision(self, collision: Collision) -> (b: EntityBuilder)
        ensures
            b.collision == collision,
            b.components@ == self.components@,
            b.joints@ == self.joints@,
            b.pos == self.pos,
            b.vel == self.vel,
            b.rot == self.rot,
            b.ang_vel == self.ang_vel,
            b.density == self.density,
            b.restitution == self.restitution,
            b.friction == self.friction,
            self.wf() ==> b.wf(),
    {
        EntityBuilder { collision, ..self }
    }

    /// The entity will collide as the sum of its parts; this is the
    /// more expensive collision type.
    pub fn compound_collision(self) -> (b: EntityBuilder)
        ensures
            b.collision == Collision::Compound,
            b.components@ == self.components@,
            b.joints@ == self.joints@,
            b.pos == self.pos,
            b.vel == self.vel,
            b.rot == self.rot,
            b.ang_vel == self.ang_vel,
            b.density == self.density,
            b.restitution == self.restitution,
            b.friction == self.friction,
            self.wf() ==> b.wf(),
    {
        self.collision(Collision::Compound)
    }

    /// The entity will collide as one box; this is the cheaper
    /// collision type.
    pub fn box_collision(self) -> (b: EntityBuilder)
        ensures
            b.collision == Collision::Box,
            b.components@ == self.components@,
            b.joints@ == self.joints@,
            b.pos == self.pos,
            b.vel == self.vel,
            b.rot == self.rot,
            b.ang_vel == self.ang_vel,
            b.density == self.density,
            b.restitution == self.restitution,
            b.friction == self.friction,
            self.wf() ==> b.wf(),
    {
        self.collision(Collision::Box)
    }

    /// Whether component `a_id` may take another joint child: it must
    /// exist and must not itself hang from a joint.
    fn check_joint_parent(&self, a_id: usize) -> (r: Result<(), BuildError>)
        ensures
            r is Ok <==> (a_id < self.components@.len() && !spec_is_joint_child(
                self.joints@,
                a_id as int,
            )),
            r is Err ==> r->Err_0 == if a_id >= self.components@.len() {
                BuildError::UnknownComponent
            } else {
                BuildError::NestedJoint
            },
    {
        if a_id >= self.components.len() {
            return Err(BuildError::UnknownComponent);
        }
        let n = self.joints.len();
        let mut j: usize = 0;
        while j < n
            invariant
                n == self.joints@.len(),
                j <= n,
                a_id < self.components@.len(),
                forall|m: int| 0 <= m < j ==> (#[trigger] self.joints@[m]).b != a_id,
            decreases n - j,
        {
            if self.joints[j].b == a_id {
                proof {
                    assert(0 <= j < self.joints@.len() && self.joints@[j as int].b == a_id);
                }
                return Err(BuildError::NestedJoint);
            }
            j = j + 1;
        }
        Ok(())
    }

    /// Records a joint hanging the fresh component `b` off component
    /// `a_id`, or reports why it cannot; on an error the builder is
    /// left exactly as it was (atomic failure).
    fn try_add_joint(
        &mut self,
        kind: JointKind,
        a_id: usize,
        a_anchor: Vec3,
        b: Component,
        b_anchor: Vec3,
    ) -> (r: Result<usize, BuildError>)
        requires
            old(self).wf(),
            b.wf(),
            a_anchor.in_range(),
            b_anchor.in_range(),
        ensures
            final(self).wf(),
            r is Ok <==> (a_id < old(self).components@.len() && !spec_is_joint_child(
                old(self).joints@,
                a_id as int,
            )),
            match r {
                Ok(id) => {
                    &&& id == old(self).components@.len()
                    &&& final(self).components@ == old(self).components@.push(b)
                    &&& final(self).joints@ == old(self).joints@.push(
                        JointSpec { kind, a: a_id, a_anchor, b: id, b_anchor },
                    )
                    &&& final(self).pos == old(self).pos
                    &&& final(self).vel == old(self).vel
                    &&& final(self).rot == old(self).rot
                    &&& final(self).ang_vel == old(self).ang_vel
                    &&& final(self).density == old(self).density
                    &&& final(self).restitution == old(self).restitution
                    &&& final(self).friction == old(self).friction
                    &&& final(self).collision == old(self).collision
                },
                Err(e) => {
                    &&& *final(self) == *old(self)
                    &&& e == if a_id >= old(self).components@.len() {
                        BuildError::UnknownComponent
                    } else {
                        BuildError::NestedJoint
                    }
                },
            },
    {
        match self.check_joint_parent(a_id) {
            Err(e) => Err(e),
            Ok(()) => {
                let id = self.components.len();
                let js = JointSpec { kind, a: a_id, a_anchor, b: id, b_anchor };
                self.components.push(b);
                self.joints.push(js);
                proof {
                    let joints = self.joints@;
                    let oj = old(self).joints@;
                    assert forall|j: int| 0 <= j < joints.len() implies {
                        let x = #[trigger] joints[j];
                        &&& x.a < x.b < self.components@.len()
                        &&& x.a_anchor.in_range()
                        &&& x.b_anchor.in_range()
                        &&& !spec_is_joint_child(joints, x.a as int)
                    } by {
                        if j < oj.len() {
                            assert(joints[j] == oj[j]);
                            assert(!spec_is_joint_child(oj, oj[j].a as int));
                            assert(oj[j].b < old(self).components@.len());
                            assert forall|m: int|
                                0 <= m < joints.len() implies #[trigger] joints[m].b != joints[j].a
                            by {
                                if m < oj.len() {
                                    assert(joints[m] == oj[m]);
                                } else {
                                    assert(joints[m] == js);
                                }
                            }
                        } else {
                            assert(joints[j] == js);
                            assert(!spec_is_joint_child(oj, a_id as int));
                            assert forall|m: int|
                                0 <= m < joints.len() implies #[trigger] joints[m].b != js.a
                            by {
                                if m < oj.len() {
                                    assert(joints[m] == oj[m]);
                                } else {
                                    assert(joints[m] == js);
                                }
                            }
                        }
                    }
                }
                Ok(id)
            },
        }
    }

    /// Appends `b_component`, fixed rigidly to component `a_id` with
    /// the given anchors, and returns the new component's id.
    pub fn add_fixed(
        &mut self,
        a_id: usize,
        a_anchor: Vec3,
        b_component: Component,
        b_anchor: Vec3,
    ) -> (id: usize)
        requires
            old(self).wf(),
            b_component.wf(),
            a_anchor.in_range(),
            b_anchor.in_range(),
            a_id < old(self).components@.len(),
            !spec_is_joint_child(old(self).joints@, a_id as int),
        ensures
            final(self).wf(),
            id == old(self).components@.len(),
            final(self).components@ == old(self).components@.push(b_component),
            final(self).joints@ == old(self).joints@.push(
                JointSpec { kind: JointKind::Fixed, a: a_id, a_anchor, b: id, b_anchor },
            ),
    {
        let r = self.try_add_joint(JointKind::Fixed, a_id, a_anchor, b_component, b_anchor);
        match r {
            Ok(id) => id,
            Err(_) => vstd::pervasive::unreached(),
        }
    }

    /// Like `add_fixed`, but reports a misuse instead of requiring
    /// its absence: an out-of-range `a_id` or a nested joint leaves
    /// the builder untouched and returns the error.
    pub fn try_add_fixed(
        &mut self,
        a_id: usize,
        a_anchor: Vec3,
        b_component: Component,
        b_anchor: Vec3,
    ) -> (r: Result<usize, BuildError>)
        requires
            old(self).wf(),
            b_component.wf(),
            a_anchor.in_range(),
            b_anchor.in_range(),
        ensures
            final(self).wf(),
            r is Ok <==> (a_id < old(self).components@.len() && !spec_is_joint_child(
                old(self).joints@,
                a_id as int,
            )),
            match r {
                Ok(id) => {
                    &&& id == old(self).components@.len()
                    &&& final(self).components@ == old(self).components@.push(b_component)
                    &&& final(self).joints@ == old(self).joints@.push(
                        JointSpec { kind: JointKind::Fixed, a: a_id, a_anchor, b: id, b_anchor },
                    )
                },
                Err(e) => {
                    &&& *final(self) == *old(self)
                    &&& e == if a_id >= old(self).components@.len() {
                        BuildError::UnknownComponent
                    } else {
                        BuildError::NestedJoint
                    }
                },
            },
    {
        self.try_add_joint(JointKind::Fixed, a_id, a_anchor, b_component, b_anchor)
    }

    /// Appends `b_component`, linked to component `a_id` by a
    /// ball-in-socket joint, and returns the new component's id.
    pub fn add_ball_in_socket(
        &mut self,
        a_id: usize,
        a_anchor: Vec3,
        b_component: Component,
        b_anchor: Vec3,
    ) -> (id: usize)
        requires
            old(self).wf(),
            b_component.wf(),
            a_anchor.in_range(),
            b_anchor.in_range(),
            a_id < old(self).components@.len(),
            !spec_is_joint_child(old(self).joints@, a_id as int),
        ensures
            final(self).wf(),
            id == old(self).components@.len(),
            final(self).components@ == old(self).components@.push(b_component),
            final(self).joints@ == old(self).joints@.push(
                JointSpec { kind: JointKind::BallInSocket, a: a_id, a_anchor, b: id, b_anchor },
            ),
    {
        let r = self.try_add_joint(JointKind::BallInSocket, a_id, a_anchor, b_component, b_anchor);
        match r {
            Ok(id) => id,
            Err(_) => vstd::pervasive::unreached(),
        }
    }

    /// The world position of component `k`'s body: the builder's
    /// position, shifted for a joint child by the joint's anchor
    /// offset (anchor on the parent minus anchor on the child).
    pub open spec fn spec_component_pos(self, k: int) -> Vec3 {
        match spec_joint_of(self.joints@, k) {
            Some(js) => Vec3 {
                x: spec_clamp(self.pos.x + js.a_anchor.x - js.b_anchor.x, VEC_LIMIT as int) as i64,
                y: spec_clamp(self.pos.y + js.a_anchor.y - js.b_anchor.y, VEC_LIMIT as int) as i64,
                z: spec_clamp(self.pos.z + js.a_anchor.z - js.b_anchor.z, VEC_LIMIT as int) as i64,
            },
            None => self.pos,
        }
    }

    /// The body committed for component `k`: placed by the policy
    /// above, sharing the builder's rotation and velocity; only the
    /// root component receives the angular velocity, and a builder
    /// without a density makes every body static.
    pub open spec fn spec_component_body(self, k: int) -> Body {
        Body {
            pos: self.spec_component_pos(k),
            rot: self.rot,
            vel: self.vel,
            ang_vel: if k == 0 {
                self.ang_vel
            } else {
                Vec3 { x: 0, y: 0, z: 0 }
            },
            status: match self.density {
                Some(_) => BodyStatus::Dynamic,
                None => BodyStatus::Static,
            },
            mass: match self.density {
                Some(d) => spec_component_mass(d as int, self.components@[k].shape) as i64,
                None => 0,
            },
            force: Vec3 { x: 0, y: 0, z: 0 },
        }
    }

    /// The joint committed for joint spec `j`, with body handles
    /// starting at `base`.
    pub open spec fn spec_built_joint(self, j: int, base: int) -> Joint {
        let js = self.joints@[j];
        Joint {
            kind: js.kind,
            body_a: (base + js.a) as usize,
            anchor_a: js.a_anchor,
            body_b: (base + js.b) as usize,
            anchor_b: js.b_anchor,
        }
    }

    /// The sum of the masses of the first `k` components; a static
    /// builder contributes nothing.
    pub open spec fn spec_mass_sum(self, k: int) -> int
        decreases k,
    {
        if k <= 0 {
            0
        } else {
            self.spec_mass_sum(k - 1) + match self.density {
                Some(d) => spec_component_mass(d as int, self.components@[k - 1].shape),
                None => 0,
            }
        }
    }

    /// The cached total mass of the committed entity.
    pub open spec fn spec_entity_mass(self) -> int {
        spec_clamp(self.spec_mass_sum(self.components@.len() as int), MASS_LIMIT as int)
    }

    /// Like `add_ball_in_socket`, but reports a misuse instead of
    /// requiring its absence; on an error the builder is untouched.
    pub fn try_add_ball_in_socket(
        &mut self,
        a_id: usize,
        a_anchor: Vec3,
        b_component: Component,
        b_anchor: Vec3,
    ) -> (r: Result<usize, BuildError>)
        requires
            old(self).wf(),
            b_component.wf(),
            a_anchor.in_range(),
            b_anchor.in_range(),
        ensures
            final(self).wf(),
            r is Ok <==> (a_id < old(self).components@.len() && !spec_is_joint_child(
                old(self).joints@,
                a_id as int,
            )),
            match r {
                Ok(id) => {
                    &&& id == old(self).components@.len()
                    &&& final(self).components@ == old(self).components@.push(b_component)
                    &&& final(self).joints@ == old(self).joints@.push(
                        JointSpec {
                            kind: JointKind::BallInSocket,
                            a: a_id,
                            a_anchor,
                            b: id,
                            b_anchor,
                        },
                    )
                },
                Err(e) => {
                    &&& *final(self) == *old(self)
                    &&& e == if a_id >= old(self).components@.len() {
                        BuildError::UnknownComponent
                    } else {
                        BuildError::NestedJoint
                    }
                },
            },
    {
        self.try_add_joint(JointKind::BallInSocket, a_id, a_anchor, b_component, b_anchor)
    }

    /// Builds the entity by adding it to a `GameState`; returns the
    /// new entity id.  This is exactly an `add_entity` with this
    /// builder: a fresh id, the entity stored under it, and the
    /// builder's bodies, colliders and joints committed to the
    /// state's world.
    pub fn build(self, state: &mut crate::state::GameState) -> (id: crate::state::EntityId)
        requires
            old(state).wf(),
            self.wf(),
            self.components@.len() >= 1,
            old(state).next_free_id < 0xffff_ffff,
        ensures
            final(state).wf(),
            id == old(state).next_free_id,
            !crate::state::spec_has_entity(old(state).entities@, id),
            final(state).next_free_id == old(state).next_free_id + 1,
            final(state).entities@.len() == old(state).entities@.len() + 1,
            forall|k: int|
                0 <= k < old(state).entities@.len() ==> final(state).entities@[k] == old(
                    state,
                ).entities@[k],
            final(state).entities@[old(state).entities@.len() as int].0 == id,
            crate::state::spec_index_of(final(state).entities@, id) == Some(
                old(state).entities@.len() as int,
            ),
            ({
                let e = final(state).entities@[old(state).entities@.len() as int].1;
                &&& e.mass == self.spec_entity_mass()
                &&& e.bodies@.len() == self.components@.len()
                &&& forall|k: int|
                    0 <= k < self.components@.len() ==> #[trigger] e.bodies@[k] == old(
                        state,
                    ).world.bodies@.len() + k
                &&& e.colliders@.len() == self.components@.len()
                &&& forall|k: int|
                    0 <= k < self.components@.len() ==> #[trigger] e.colliders@[k] == old(
                        state,
                    ).world.colliders@.len() + k
                &&& e.joints@.len() == self.joints@.len()
                &&& forall|j: int|
                    0 <= j < self.joints@.len() ==> #[trigger] e.joints@[j] == old(
                        state,
                    ).world.joints@.len() + j
                &&& e.meshes@.len() == self.components@.len()
                &&& forall|k: int|
                    0 <= k < self.components@.len() ==> #[trigger] e.meshes@[k] == (
                        self.components@[k].iso,
                        self.components@[k].mesh,
                    )
            }),
            final(state).world.bodies@.len() == old(state).world.bodies@.len()
                + self.components@.len(),
            forall|i: int|
                0 <= i < old(state).world.bodies@.len() ==> final(state).world.bodies@[i] == old(
                    state,
                ).world.bodies@[i],
            forall|i: int|
                old(state).world.bodies@.len() <= i < final(state).world.bodies@.len()
                    ==> #[trigger] final(state).world.bodies@[i] == Some(
                    self.spec_component_body(i - old(state).world.bodies@.len()),
                ),
            final(state).world.colliders@.len() == old(state).world.colliders@.len()
                + self.components@.len(),
            forall|i: int|
                0 <= i < old(state).world.colliders@.len() ==> final(state).world.colliders@[i]
                    == old(state).world.colliders@[i],
            forall|i: int|
                old(state).world.colliders@.len() <= i < final(state).world.colliders@.len()
                    ==> #[trigger] final(state).world.colliders@[i] == Some(
                    Collider {
                        body: (old(state).world.bodies@.len() + (i - old(
                            state,
                        ).world.colliders@.len())) as usize,
                        restitution: self.restitution,
                        friction: self.friction,
                    },
                ),
            final(state).world.joints@.len() == old(state).world.joints@.len()
                + self.joints@.len(),
            forall|i: int|
                0 <= i < old(state).world.joints@.len() ==> final(state).world.joints@[i] == old(
                    state,
                ).world.joints@[i],
            forall|i: int|
                old(state).world.joints@.len() <= i < final(state).world.joints@.len()
                    ==> #[trigger] final(state).world.joints@[i] == Some(
                    self.spec_built_joint(
                        i - old(state).world.joints@.len(),
                        old(state).world.bodies@.len() as int,
                    ),
                ),
            final(state).world.gravity == old(state).world.gravity,
            final(state).world.timestep_ns == old(state).world.timestep_ns,
            final(state).gravity == old(state).gravity,
            final(state).camera == old(state).camera,
            final(state).keyboard_state@ == old(state).keyboard_state@,
            final(state).light == old(state).light,
            final(state).ambient_light == old(state).ambient_light,
            final(state).wireframe_mode == old(state).wireframe_mode,
    {
        state.add_entity(self)
    }

    /// Builds the entity by committing every component, collider and
    /// joint to the world.
    pub fn build_world(self, world: &mut World) -> (e: Entity)
        requires
            old(world).wf(),
            self.wf(),
            self.components@.len() >= 1,
        ensures
            final(world).wf(),
            e.wf(),
            final(world).gravity == old(world).gravity,
            final(world).timestep_ns == old(world).timestep_ns,
            final(world).bodies@.len() == old(world).bodies@.len() + self.components@.len(),
            final(world).colliders@.len() == old(world).colliders@.len()
                + self.components@.len(),
            final(world).joints@.len() == old(world).joints@.len() + self.joints@.len(),
            forall|i: int|
                0 <= i < old(world).bodies@.len() ==> final(world).bodies@[i] == old(
                    world,
                ).bodies@[i],
            forall|i: int|
                0 <= i < old(world).colliders@.len() ==> final(world).colliders@[i] == old(
                    world,
                ).colliders@[i],
            forall|i: int|
                0 <= i < old(world).joints@.len() ==> final(world).joints@[i] == old(
                    world,
                ).joints@[i],
            forall|i: int|
                old(world).bodies@.len() <= i < old(world).bodies@.len()
                    + self.components@.len() ==> #[trigger] final(world).bodies@[i] == Some(
                    self.spec_component_body(i - old(world).bodies@.len()),
                ),
            forall|i: int|
                old(world).colliders@.len() <= i < old(world).colliders@.len()
                    + self.components@.len() ==> #[trigger] final(world).colliders@[i] == Some(
                    Collider {
                        body: (old(world).bodies@.len() + (i - old(
                            world,
                        ).colliders@.len())) as usize,
                        restitution: self.restitution,
                        friction: self.friction,
                    },
                ),
            forall|i: int|
                old(world).joints@.len() <= i < old(world).joints@.len() + self.joints@.len()
                    ==> #[trigger] final(world).joints@[i] == Some(
                    self.spec_built_joint(
                        i - old(world).joints@.len(),
                        old(world).bodies@.len() as int,
                    ),
                ),
            e.bodies@.len() == self.components@.len(),
            forall|k: int|
                0 <= k < self.components@.len() ==> e.bodies@[k] == old(world).bodies@.len() + k,
            e.colliders@.len() == self.components@.len(),
            forall|k: int|
                0 <= k < self.components@.len() ==> e.colliders@[k] == old(
                    world,
                ).colliders@.len() + k,
            e.joints@.len() == self.joints@.len(),
            forall|j: int|
                0 <= j < self.joints@.len() ==> e.joints@[j] == old(world).joints@.len() + j,
            e.meshes@.len() == self.components@.len(),
            forall|k: int|
                0 <= k < self.components@.len() ==> e.meshes@[k] == (
                self.components@[k].iso,
                self.components@[k].mesh,
            ),
            e.mass == self.spec_entity_mass(),
    {
        let n = self.components.len();
        let mut bodies: Vec<BodyHandle> = Vec::new();
        let mut colliders: Vec<ColliderHandle> = Vec::new();
        let mut meshes: Vec<(Iso, MeshId)> = Vec::new();
        let mut mass_acc: i128 = 0;
        let mut k: usize = 0;
        while k < n
            invariant
                self.wf(),
                n == self.components@.len(),
                k <= n,
                world.wf(),
                world.bodies@.len() == old(world).bodies@.len() + k,
                world.colliders@.len() == old(world).colliders@.len() + k,
                world.joints@ == old(world).joints@,
                world.gravity == old(world).gravity,
                world.timestep_ns == old(world).timestep_ns,
                forall|i: int|
                    0 <= i < old(world).bodies@.len() ==> world.bodies@[i] == old(
                        world,
                    ).bodies@[i],
                forall|i: int|
                    0 <= i < old(world).colliders@.len() ==> world.colliders@[i] == old(
                        world,
                    ).colliders@[i],
                forall|i: int|
                    old(world).bodies@.len() <= i < old(world).bodies@.len() + k
                        ==> #[trigger] world.bodies@[i] == Some(
                        self.spec_component_body(i - old(world).bodies@.len()),
                    ),
                forall|i: int|
                    old(world).colliders@.len() <= i < old(world).colliders@.len() + k
                        ==> #[trigger] world.colliders@[i] == Some(
                        Collider {
                            body: (old(world).bodies@.len() + (i - old(
                                world,
                            ).colliders@.len())) as usize,
                            restitution: self.restitution,
                            friction: self.friction,
                        },
                    ),
                bodies@.len() == k,
                forall|i: int| 0 <= i < k ==> bodies@[i] == old(world).bodies@.len() + i,
                colliders@.len() == k,
                forall|i: int| 0 <= i < k ==> colliders@[i] == old(world).colliders@.len() + i,
                meshes@.len() == k,
                forall|i: int|
                    0 <= i < k ==> meshes@[i] == (self.components@[i].iso, self.components@[i].mesh),
                mass_acc == self.spec_mass_sum(k as int),
                0 <= mass_acc <= k * 1_000_000_000_000,
            decreases n - k,
        {
            let c = self.components[k];
            proof {
                assert(self.components@[k as int].wf());
            }
            let jo = joint_of(&self.joints, k);
            let pos: Vec3 = match jo {
                Some(js) => {
                    proof {
                        lemma_joint_of_from_member(self.joints@, k as int, 0);
                        let m = choose|m: int|
                            0 <= m < self.joints@.len() && self.joints@[m] == js;
                        assert(self.joints@[m].a_anchor.in_range());
                    }
                    Vec3 {
                        x: clamp_i128(
                            self.pos.x as i128 + js.a_anchor.x as i128 - js.b_anchor.x as i128,
                            VEC_LIMIT,
                        ),
                        y: clamp_i128(
                            self.pos.y as i128 + js.a_anchor.y as i128 - js.b_anchor.y as i128,
                            VEC_LIMIT,
                        ),
                        z: clamp_i128(
                            self.pos.z as i128 + js.a_anchor.z as i128 - js.b_anchor.z as i128,
                            VEC_LIMIT,
                        ),
                    }
                },
                None => self.pos,
            };
            let (status, mass): (BodyStatus, i64) = match self.density {
                Some(d) => (BodyStatus::Dynamic, component_mass(d, &c.shape)),
                None => (BodyStatus::Static, 0),
            };
            let ang_vel: Vec3 = if k == 0 {
                self.ang_vel
            } else {
                Vec3::new()
            };
            let body = Body {
                pos,
                rot: self.rot,
                vel: self.vel,
                ang_vel,
                status,
                mass,
                force: Vec3::new(),
            };
            proof {
                assert(body == self.spec_component_body(k as int));
            }
            let bh = world.add_body(body);
            bodies.push(bh);
            let ch = world.add_collider(
                Collider { body: bh, restitution: self.restitution, friction: self.friction },
            );
            colliders.push(ch);
            meshes.push((c.iso, c.mesh));
            mass_acc = mass_acc + (mass as i128);
            k = k + 1;
        }
        let m = self.joints.len();
        let mut joints: Vec<JointHandle> = Vec::new();
        let mut j: usize = 0;
        while j < m
            invariant
                self.wf(),
                n == self.components@.len(),
                m == self.joints@.len(),
                j <= m,
                world.wf(),
                world.bodies@.len() == old(world).bodies@.len() + n,
                world.colliders@.len() == old(world).colliders@.len() + n,
                world.joints@.len() == old(world).joints@.len() + j,
                world.gravity == old(world).gravity,
                world.timestep_ns == old(world).timestep_ns,
                forall|i: int|
                    0 <= i < old(world).bodies@.len() ==> world.bodies@[i] == old(
                        world,
                    ).bodies@[i],
                forall|i: int|
                    0 <= i < old(world).colliders@.len() ==> world.colliders@[i] == old(
                        world,
                    ).colliders@[i],
                forall|i: int|
                    0 <= i < old(world).joints@.len() ==> world.joints@[i] == old(
                        world,
                    ).joints@[i],
                forall|i: int|
                    old(world).bodies@.len() <= i < old(world).bodies@.len() + n
                        ==> #[trigger] world.bodies@[i] == Some(
                        self.spec_component_body(i - old(world).bodies@.len()),
                    ),
                forall|i: int|
                    old(world).colliders@.len() <= i < old(world).colliders@.len() + n
                        ==> #[trigger] world.colliders@[i] == Some(
                        Collider {
                            body: (old(world).bodies@.len() + (i - old(
                                world,
                            ).colliders@.len())) as usize,
                            restitution: self.restitution,
                            friction: self.friction,
                        },
                    ),
                forall|i: int|
                    old(world).joints@.len() <= i < old(world).joints@.len() + j
                        ==> #[trigger] world.joints@[i] == Some(
                        self.spec_built_joint(
                            i - old(world).joints@.len(),
                            old(world).bodies@.len() as int,
                        ),
                    ),
                bodies@.len() == n,
                forall|i: int| 0 <= i < n ==> bodies@[i] == old(world).bodies@.len() + i,
                colliders@.len() == n,
                forall|i: int| 0 <= i < n ==> colliders@[i] == old(world).colliders@.len() + i,
                meshes@.len() == n,
                forall|i: int|
                    0 <= i < n ==> meshes@[i] == (self.components@[i].iso, self.components@[i].mesh),
                joints@.len() == j,
                forall|i: int| 0 <= i < j ==> joints@[i] == old(world).joints@.len() + i,
                mass_acc == self.spec_mass_sum(n as int),
                0 <= mass_acc <= n * 1_000_000_000_000,
            decreases m - j,
        {
            let js = self.joints[j];
            proof {
                assert(self.joints@[j as int].a < self.joints@[j as int].b < n);
            }
            let wj = Joint {
                kind: js.kind,
                body_a: bodies[js.a],
                anchor_a: js.a_anchor,
                body_b: bodies[js.b],
                anchor_b: js.b_anchor,
            };
            let jh = world.add_joint(wj);
            joints.push(jh);
            j = j + 1;
        }
        let mass = clamp_i128(mass_acc, MASS_LIMIT);
        Entity { meshes, bodies, colliders, joints, mass }
    }
}

/// The mass of one component in milli units: the density times the
/// shape's volume, kept within `[1, MASS_LIMIT]` so that a dynamic
/// body always has a positive finite mass.
pub open spec fn spec_component_mass(d: int, s: Shape) -> int {
    let raw = d * s.spec_volume() / 1000;
    if raw < 1 {
        1
    } else if raw > MASS_LIMIT {
        MASS_LIMIT as int
    } else {
        raw
    }
}

/// A component's mass always lies in `[1, MASS_LIMIT]` when a
/// density is given.
pub proof fn lemma_component_mass_bounds(density: Option<i64>, shape: Shape)
    ensures
        match density {
            Some(d) => 1 <= spec_component_mass(d as int, shape) <= MASS_LIMIT,
            None => true,
        },
{
}

/// The body committed for one plain (unjointed) component: the given
/// placement and velocities, static exactly when no density is
/// given, and the mass the density and shape yield.
pub open spec fn spec_committed_body(
    pos: Vec3,
    rot: Vec3,
    vel: Vec3,
    ang_vel: Vec3,
    density: Option<i64>,
    shape: Shape,
) -> Body {
    Body {
        pos,
        rot,
        vel,
        ang_vel,
        status: match density {
            Some(_) => BodyStatus::Dynamic,
            None => BodyStatus::Static,
        },
        mass: match density {
            Some(d) => spec_component_mass(d as int, shape) as i64,
            None => 0,
        },
        force: Vec3 { x: 0, y: 0, z: 0 },
    }
}

/// The mass of one component; matches `spec_component_mass`.
fn component_mass(d: i64, s: &Shape) -> (m: i64)
    requires
        0 < d <= DENSITY_LIMIT,
        s.wf(),
    ensures
        m == spec_component_mass(d as int, *s),
        1 <= m <= MASS_LIMIT,
{
    let vol = s.volume();
    proof {
        lemma_abs_mul_le(d as int, vol as int, DENSITY_LIMIT as int, 8_000_000_000_000);
        assert(0 <= (d as int) * (vol as int) / 1000) by (nonlinear_arith)
            requires
                0 < d,
                0 <= vol,
        {}
    }
    let raw: i128 = (d as i128) * (vol as i128) / 1000;
    if raw < 1 {
        1
    } else if raw > MASS_LIMIT as i128 {
        MASS_LIMIT
    } else {
        raw as i64
    }
}

/// The first joint whose child side is component `k`; matches
/// `spec_joint_of`.
fn joint_of(joints: &Vec<JointSpec>, k: usize) -> (r: Option<JointSpec>)
    ensures
        r == spec_joint_of(joints@, k as int),
{
    let n = joints.len();
    let mut j: usize = 0;
    while j < n
        invariant
            n == joints@.len(),
            j <= n,
            spec_joint_of(joints@, k as int) == spec_joint_of_from(joints@, k as int, j as int),
        decreases n - j,
    {
        if joints[j].b == k {
            return Some(joints[j]);
        }
        j = j + 1;
    }
    None
}

/// One step of removing an entity from the world, in the order the
/// plan requires: all joints first, then the colliders, then the
/// bodies.
#[derive(Clone, Copy, Debug, PartialEq, Eq, Structural)]
pub enum RemovalOp {
    RemoveJoint(JointHandle),
    RemoveCollider(ColliderHandle),
    RemoveBody(BodyHandle),
}

/// The removal plan of an entity: one joint removal per joint handle,
/// then one collider removal per collider, then one body removal per
/// body.
pub open spec fn spec_removal_plan(e: Entity) -> Seq<RemovalOp> {
    e.joints@.map_values(|h: JointHandle| RemovalOp::RemoveJoint(h)) + e.colliders@.map_values(
        |h: ColliderHandle| RemovalOp::RemoveCollider(h),
    ) + e.bodies@.map_values(|h: BodyHandle| RemovalOp::RemoveBody(h))
}

/// Whether handle `h` occurs among the first `n` entries of a handle
/// list.
pub open spec fn spec_handle_in_prefix(s: Seq<usize>, n: int, h: int) -> bool {
    exists|m: int| 0 <= m < n && (#[trigger] s[m]) == h
}

/// A committed multi-component rigid assembly: the meshes to draw it
/// with, the handles of everything it put into the world, and its
/// cached total mass.
pub struct Entity {
    pub meshes: Vec<(Iso, MeshId)>,
    pub bodies: Vec<BodyHandle>,
    pub colliders: Vec<ColliderHandle>,
    pub joints: Vec<JointHandle>,
    pub mass: i64,
}

impl Entity {
    /// A committed entity: one mesh, body and collider per component,
    /// at least one component.
    pub open spec fn wf(self) -> bool {
        &&& self.bodies@.len() == self.meshes@.len()
        &&& self.colliders@.len() == self.meshes@.len()
        &&& self.meshes@.len() >= 1
    }

    /// Constructs an entity from a single component by committing it
    /// to the world: one body at rest at the origin, with its
    /// collider, and the component's mesh attached to it.
    pub fn new(
        world: &mut World,
        component: Component,
        collision: Collision,
        density: Option<i64>,
        restitution: i64,
        friction: i64,
    ) -> (e: Entity)
        requires
            old(world).wf(),
            component.wf(),
            match density {
                Some(d) => 0 < d <= DENSITY_LIMIT,
                None => true,
            },
        ensures
            final(world).wf(),
            e.wf(),
            final(world).gravity == old(world).gravity,
            final(world).timestep_ns == old(world).timestep_ns,
            final(world).joints@ == old(world).joints@,
            final(world).bodies@.len() == old(world).bodies@.len() + 1,
            forall|i: int|
                0 <= i < old(world).bodies@.len() ==> final(world).bodies@[i] == old(
                    world,
                ).bodies@[i],
            final(world).bodies@[old(world).bodies@.len() as int] == Some(
                spec_committed_body(
                    Vec3 { x: 0, y: 0, z: 0 },
                    Vec3 { x: 0, y: 0, z: 0 },
                    Vec3 { x: 0, y: 0, z: 0 },
                    Vec3 { x: 0, y: 0, z: 0 },
                    density,
                    component.shape,
                ),
            ),
            final(world).colliders@.len() == old(world).colliders@.len() + 1,
            forall|i: int|
                0 <= i < old(world).colliders@.len() ==> final(world).colliders@[i] == old(
                    world,
                ).colliders@[i],
            final(world).colliders@[old(world).colliders@.len() as int] == Some(
                Collider { body: old(world).bodies@.len() as usize, restitution, friction },
            ),
            e.bodies@.len() == 1,
            e.bodies@[0] == old(world).bodies@.len(),
            e.colliders@.len() == 1,
            e.colliders@[0] == old(world).colliders@.len(),
            e.joints@.len() == 0,
            e.meshes@.len() == 1,
            e.meshes@[0] == (component.iso, component.mesh),
            e.mass == spec_committed_body(
                Vec3 { x: 0, y: 0, z: 0 },
                Vec3 { x: 0, y: 0, z: 0 },
                Vec3 { x: 0, y: 0, z: 0 },
                Vec3 { x: 0, y: 0, z: 0 },
                density,
                component.shape,
            ).mass,
    {
        Entity::with_matrix(
            world,
            component,
            collision,
            Vec3::new(),
            Vec3::new(),
            Vec3::new(),
            Vec3::new(),
            density,
            restitution,
            friction,
        )
    }

    /// Constructs a single-component entity with the given initial
    /// placement by committing it to the world: the body carries the
    /// placement and velocities, the collider its contact material,
    /// and the entity holds their handles, the mesh pair and the
    /// body's mass.
    pub fn with_matrix(
        world: &mut World,
        component: Component,
        collision: Collision,
        pos: Vec3,
        vel: Vec3,
        rot: Vec3,
        ang_vel: Vec3,
        density: Option<i64>,
        restitution: i64,
        friction: i64,
    ) -> (e: Entity)
        requires
            old(world).wf(),
            component.wf(),
            pos.in_range(),
            vel.in_range(),
            rot.in_range(),
            ang_vel.in_range(),
            match density {
                Some(d) => 0 < d <= DENSITY_LIMIT,
                None => true,
            },
        ensures
            final(world).wf(),
            e.wf(),
            final(world).gravity == old(world).gravity,
            final(world).timestep_ns == old(world).timestep_ns,
            final(world).joints@ == old(world).joints@,
            final(world).bodies@.len() == old(world).bodies@.len() + 1,
            forall|i: int|
                0 <= i < old(world).bodies@.len() ==> final(world).bodies@[i] == old(
                    world,
                ).bodies@[i],
            final(world).bodies@[old(world).bodies@.len() as int] == Some(
                spec_committed_body(pos, rot, vel, ang_vel, density, component.shape),
            ),
            final(world).colliders@.len() == old(world).colliders@.len() + 1,
            forall|i: int|
                0 <= i < old(world).colliders@.len() ==> final(world).colliders@[i] == old(
                    world,
                ).colliders@[i],
            final(world).colliders@[old(world).colliders@.len() as int] == Some(
                Collider { body: old(world).bodies@.len() as usize, restitution, friction },
            ),
            e.bodies@.len() == 1,
            e.bodies@[0] == old(world).bodies@.len(),
            e.colliders@.len() == 1,
            e.colliders@[0] == old(world).colliders@.len(),
            e.joints@.len() == 0,
            e.meshes@.len() == 1,
            e.meshes@[0] == (component.iso, component.mesh),
            e.mass == spec_committed_body(pos, rot, vel, ang_vel, density, component.shape).mass,
    {
        let builder = EntityBuilder {
            pos,
            vel,
            rot,
            ang_vel,
            density,
            restitution,
            friction,
            collision,
            components: vec![component],
            joints: Vec::new(),
        };
        proof {
            assert(builder.components@ =~= seq![component]);
            assert(spec_joint_of_from(builder.joints@, 0, 0) is None);
            assert(builder.spec_component_body(0) == spec_committed_body(
                pos,
                rot,
                vel,
                ang_vel,
                density,
                component.shape,
            ));
            lemma_component_mass_bounds(density, component.shape);
            assert(builder.spec_mass_sum(1) == builder.spec_mass_sum(0) + match density {
                Some(d) => spec_component_mass(d as int, component.shape),
                None => 0,
            });
        }
        builder.build_world(world)
    }

    /// The handle of the root component's body.
    pub fn body(&self) -> (h: BodyHandle)
        requires
            self.wf(),
        ensures
            h == self.bodies@[0],
    {
        self.bodies[0]
    }

    /// The handle of the root component's collider.
    pub fn collider(&self) -> (h: ColliderHandle)
        requires
            self.wf(),
        ensures
            h == self.colliders@[0],
    {
        self.colliders[0]
    }

    /// The cached total mass, milli units.
    pub fn mass(&self) -> (m: i64)
        ensures
            m == self.mass,
    {
        self.mass
    }

    /// The ordered plan for removing this entity from a world: every
    /// joint removal strictly before every body removal, with the
    /// collider removals in between.
    pub fn removal_plan(&self) -> (plan: Vec<RemovalOp>)
        ensures
            plan@ == spec_removal_plan(*self),
    {
        let mut plan: Vec<RemovalOp> = Vec::new();
        let nj = self.joints.len();
        let mut i: usize = 0;
        while i < nj
            invariant
                nj == self.joints@.len(),
                i <= nj,
                plan@ =~= self.joints@.subrange(0, i as int).map_values(
                    |h: JointHandle| RemovalOp::RemoveJoint(h),
                ),
            decreases nj - i,
        {
            plan.push(RemovalOp::RemoveJoint(self.joints[i]));
            proof {
                assert(self.joints@.subrange(0, i + 1).map_values(
                    |h: JointHandle| RemovalOp::RemoveJoint(h),
                ) =~= self.joints@.subrange(0, i as int).map_values(
                    |h: JointHandle| RemovalOp::RemoveJoint(h),
                ).push(RemovalOp::RemoveJoint(self.joints@[i as int])));
            }
            i = i + 1;
        }
        let nc = self.colliders.len();
        let mut i: usize = 0;
        while i < nc
            invariant
                nj == self.joints@.len(),
                nc == self.colliders@.len(),
                i <= nc,
                plan@ =~= self.joints@.map_values(|h: JointHandle| RemovalOp::RemoveJoint(h))
                    + self.colliders@.subrange(0, i as int).map_values(
                    |h: ColliderHandle| RemovalOp::RemoveCollider(h),
                ),
            decreases nc - i,
        {
            plan.push(RemovalOp::RemoveCollider(self.colliders[i]));
            proof {
                assert(self.colliders@.subrange(0, i + 1).map_values(
                    |h: ColliderHandle| RemovalOp::RemoveCollider(h),
                ) =~= self.colliders@.subrange(0, i as int).map_values(
                    |h: ColliderHandle| RemovalOp::RemoveCollider(h),
                ).push(RemovalOp::RemoveCollider(self.colliders@[i as int])));
            }
            i = i + 1;
        }
        let nb = self.bodies.len();
        let mut i: usize = 0;
        while i < nb
            invariant
                nj == self.joints@.len(),
                nc == self.colliders@.len(),
                nb == self.bodies@.len(),
                i <= nb,
                plan@ =~= self.joints@.map_values(|h: JointHandle| RemovalOp::RemoveJoint(h))
                    + self.colliders@.map_values(|h: ColliderHandle| RemovalOp::RemoveCollider(h))
                    + self.bodies@.subrange(0, i as int).map_values(
                    |h: BodyHandle| RemovalOp::RemoveBody(h),
                ),
            decreases nb - i,
        {
            plan.push(RemovalOp::RemoveBody(self.bodies[i]));
            proof {
                assert(self.bodies@.subrange(0, i + 1).map_values(
                    |h: BodyHandle| RemovalOp::RemoveBody(h),
                ) =~= self.bodies@.subrange(0, i as int).map_values(
                    |h: BodyHandle| RemovalOp::RemoveBody(h),
                ).push(RemovalOp::RemoveBody(self.bodies@[i as int])));
            }
            i = i + 1;
        }
        proof {
            assert(self.joints@.subrange(0, self.joints@.len() as int) =~= self.joints@);
            assert(self.colliders@.subrange(0, self.colliders@.len() as int) =~= self.colliders@);
            assert(self.bodies@.subrange(0, self.bodies@.len() as int) =~= self.bodies@);
            assert(plan@ =~= spec_removal_plan(*self));
        }
        plan
    }

    /// Removes this entity from a world by executing its removal
    /// plan in order: the joints bound to its components first, then
    /// the colliders, then the rigid bodies.
    pub fn remove_world(&self, world: &mut World)
        requires
            old(world).wf(),
        ensures
            final(world).wf(),
            final(world).gravity == old(world).gravity,
            final(world).timestep_ns == old(world).timestep_ns,
            final(world).joints@.len() == old(world).joints@.len(),
            final(world).colliders@.len() == old(world).colliders@.len(),
            final(world).bodies@.len() == old(world).bodies@.len(),
            forall|i: int|
                0 <= i < old(world).joints@.len() ==> final(world).joints@[i] == if
                    spec_handle_in_prefix(self.joints@, self.joints@.len() as int, i) {
                    None::<Joint>
                } else {
                    old(world).joints@[i]
                },
            forall|i: int|
                0 <= i < old(world).colliders@.len() ==> final(world).colliders@[i] == if
                    spec_handle_in_prefix(self.colliders@, self.colliders@.len() as int, i) {
                    None::<Collider>
                } else {
                    old(world).colliders@[i]
                },
            forall|i: int|
                0 <= i < old(world).bodies@.len() ==> final(world).bodies@[i] == if
                    spec_handle_in_prefix(self.bodies@, self.bodies@.len() as int, i) {
                    None::<Body>
                } else {
                    old(world).bodies@[i]
                },
    {
        let nj = self.joints.len();
        let mut k: usize = 0;
        while k < nj
            invariant
                nj == self.joints@.len(),
                k <= nj,
                world.wf(),
                world.gravity == old(world).gravity,
                world.timestep_ns == old(world).timestep_ns,
                world.colliders@ == old(world).colliders@,
                world.bodies@ == old(world).bodies@,
                world.joints@.len() == old(world).joints@.len(),
                forall|i: int|
                    0 <= i < old(world).joints@.len() ==> world.joints@[i] == if
                        spec_handle_in_prefix(self.joints@, k as int, i) {
                        None::<Joint>
                    } else {
                        old(world).joints@[i]
                    },
            decreases nj - k,
        {
            let h = self.joints[k];
            world.remove_joint(h);
            proof {
                assert forall|i: int| 0 <= i < old(world).joints@.len() implies world.joints@[i]
                    == if spec_handle_in_prefix(self.joints@, k + 1, i) {
                    None::<Joint>
                } else {
                    old(world).joints@[i]
                } by {
                    if i == h {
                        assert(self.joints@[k as int] == h);
                        assert(spec_handle_in_prefix(self.joints@, k + 1, i));
                    } else {
                        if spec_handle_in_prefix(self.joints@, k + 1, i) {
                            let m = choose|m: int|
                                0 <= m < k + 1 && (#[trigger] self.joints@[m]) == i;
                            assert(m < k);
                            assert(spec_handle_in_prefix(self.joints@, k as int, i));
                        }
                    }
                }
            }
            k = k + 1;
        }
        let nc = self.colliders.len();
        let mut k: usize = 0;
        while k < nc
            invariant
                nc == self.colliders@.len(),
                k <= nc,
                world.wf(),
                world.gravity == old(world).gravity,
                world.timestep_ns == old(world).timestep_ns,
                world.bodies@ == old(world).bodies@,
                world.joints@.len() == old(world).joints@.len(),
                forall|i: int|
                    0 <= i < old(world).joints@.len() ==> world.joints@[i] == if
                        spec_handle_in_prefix(self.joints@, self.joints@.len() as int, i) {
                        None::<Joint>
                    } else {
                        old(world).joints@[i]
                    },
                world.colliders@.len() == old(world).colliders@.len(),
                forall|i: int|
                    0 <= i < old(world).colliders@.len() ==> world.colliders@[i] == if
                        spec_handle_in_prefix(self.colliders@, k as int, i) {
                        None::<Collider>
                    } else {
                        old(world).colliders@[i]
                    },
            decreases nc - k,
        {
            let h = self.colliders[k];
            world.remove_collider(h);
            proof {
                assert forall|i: int| 0 <= i < old(world).colliders@.len() implies
                    world.colliders@[i] == if spec_handle_in_prefix(self.colliders@, k + 1, i) {
                    None::<Collider>
                } else {
                    old(world).colliders@[i]
                } by {
                    if i == h {
                        assert(self.colliders@[k as int] == h);
                        assert(spec_handle_in_prefix(self.colliders@, k + 1, i));
                    } else {
                        if spec_handle_in_prefix(self.colliders@, k + 1, i) {
                            let m = choose|m: int|
                                0 <= m < k + 1 && (#[trigger] self.colliders@[m]) == i;
                            assert(m < k);
                            assert(spec_handle_in_prefix(self.colliders@, k as int, i));
                        }
                    }
                }
            }
            k = k + 1;
        }
        let nb = self.bodies.len();
        let mut k: usize = 0;
        while k < nb
            invariant
                nb == self.bodies@.len(),
                k <= nb,
                world.wf(),
                world.gravity == old(world).gravity,
                world.timestep_ns == old(world).timestep_ns,
                world.joints@.len() == old(world).joints@.len(),
                forall|i: int|
                    0 <= i < old(world).joints@.len() ==> world.joints@[i] == if
                        spec_handle_in_prefix(self.joints@, self.joints@.len() as int, i) {
                        None::<Joint>
                    } else {
                        old(world).joints@[i]
                    },
                world.colliders@.len() == old(world).colliders@.len(),
                forall|i: int|
                    0 <= i < old(world).colliders@.len() ==> world.colliders@[i] == if
                        spec_handle_in_prefix(self.colliders@, self.colliders@.len() as int, i) {
                        None::<Collider>
                    } else {
                        old(world).colliders@[i]
                    },
                world.bodies@.len() == old(world).bodies@.len(),
                forall|i: int|
                    0 <= i < old(world).bodies@.len() ==> world.bodies@[i] == if
                        spec_handle_in_prefix(self.bodies@, k as int, i) {
                        None::<Body>
                    } else {
                        old(world).bodies@[i]
                    },
            decreases nb - k,
        {
            let h = self.bodies[k];
            world.remove_body(h);
            proof {
                assert forall|i: int| 0 <= i < old(world).bodies@.len() implies world.bodies@[i]
                    == if spec_handle_in_prefix(self.bodies@, k + 1, i) {
                    None::<Body>
                } else {
                    old(world).bodies@[i]
                } by {
                    if i == h {
                        assert(self.bodies@[k as int] == h);
                        assert(spec_handle_in_prefix(self.bodies@, k + 1, i));
                    } else {
                        if spec_handle_in_prefix(self.bodies@, k + 1, i) {
                            let m = choose|m: int|
                                0 <= m < k + 1 && (#[trigger] self.bodies@[m]) == i;
                            assert(m < k);
                            assert(spec_handle_in_prefix(self.bodies@, k as int, i));
                        }
                    }
                }
            }
            k = k + 1;
        }
    }

    /// The draw commands for this entity: one per mesh whose body
    /// handle still resolves; a mesh whose body is gone is skipped
    /// rather than drawn.  The contract pins the commands exactly, so
    /// a shell that wants to report skips can compare the command
    /// count with the mesh count.
    pub fn render(&self, world: &World) -> (items: Vec<RenderItem>)
        requires
            self.wf(),
        ensures
            items@ == spec_render_items(*self, world.bodies@),
    {
        let ghost total = spec_render_items(*self, world.bodies@);
        let n = self.meshes.len();
        let mut items: Vec<RenderItem> = Vec::new();
        let mut k: usize = 0;
        while k < n
            invariant
                self.wf(),
                n == self.meshes@.len(),
                k <= n,
                total == spec_render_items(*self, world.bodies@),
                items@ + spec_render_items_from(*self, world.bodies@, k as int) == total,
            decreases n - k,
        {
            let ghost items_before = items@;
            let (iso, mesh) = self.meshes[k];
            if let Some(b) = world.rigid_body(self.bodies[k]) {
                items.push(RenderItem { mesh, body_pos: b.pos, body_rot: b.rot, local: iso });
            }
            proof {
                assert(spec_render_items_from(*self, world.bodies@, k as int)
                    =~= spec_render_entry(*self, world.bodies@, k as int)
                    + spec_render_items_from(*self, world.bodies@, k as int + 1));
                assert(items@ =~= items_before + spec_render_entry(
                    *self,
                    world.bodies@,
                    k as int,
                ));
                assert(items@ + spec_render_items_from(*self, world.bodies@, k as int + 1)
                    =~= total);
            }
            k = k + 1;
        }
        proof {
            assert(spec_render_items_from(*self, world.bodies@, k as int)
                =~= Seq::<RenderItem>::empty());
            assert(items@ =~= total);
        }
        items
    }

    /// Replaces the position of the root component's body.
    pub fn set_pos(&self, world: &mut World, v: Vec3)
        requires
            old(world).wf(),
            self.wf(),
            v.in_range(),
        ensures
            final(world).wf(),
            final(world).bodies@ == match old(world).spec_body(self.bodies@[0]) {
                Some(b) => old(world).bodies@.update(
                    self.bodies@[0] as int,
                    Some(Body { pos: v, ..b }),
                ),
                None => old(world).bodies@,
            },
            final(world).joints@ == old(world).joints@,
            final(world).colliders@ == old(world).colliders@,
            final(world).gravity == old(world).gravity,
            final(world).timestep_ns == old(world).timestep_ns,
    {
        world.set_body_pos(self.bodies[0], v);
    }

    /// Replaces the rotation of the root component's body.
    pub fn set_rot(&self, world: &mut World, v: Vec3)
        requires
            old(world).wf(),
            self.wf(),
            v.in_range(),
        ensures
            final(world).wf(),
            final(world).bodies@ == match old(world).spec_body(self.bodies@[0]) {
                Some(b) => old(world).bodies@.update(
                    self.bodies@[0] as int,
                    Some(Body { rot: v, ..b }),
                ),
                None => old(world).bodies@,
            },
            final(world).joints@ == old(world).joints@,
            final(world).colliders@ == old(world).colliders@,
            final(world).gravity == old(world).gravity,
            final(world).timestep_ns == old(world).timestep_ns,
    {
        world.set_body_rot(self.bodies[0], v);
    }

    /// Replaces the angular velocity of the root component's body.
    /// Deliberately, no angular effect is propagated to the other
    /// components.
    pub fn set_ang_vel(&self, world: &mut World, v: Vec3)
        requires
            old(world).wf(),
            self.wf(),
            v.in_range(),
        ensures
            final(world).wf(),
            final(world).bodies@ == match old(world).spec_body(self.bodies@[0]) {
                Some(b) => old(world).bodies@.update(
                    self.bodies@[0] as int,
                    Some(Body { ang_vel: v, ..b }),
                ),
                None => old(world).bodies@,
            },
            final(world).joints@ == old(world).joints@,
            final(world).colliders@ == old(world).colliders@,
            final(world).gravity == old(world).gravity,
            final(world).timestep_ns == old(world).timestep_ns,
    {
        world.set_body_ang_vel(self.bodies[0], v);
    }

    /// Replaces the linear velocity of every component's body with
    /// the same vector.  Deliberately, the velocity is propagated
    /// uniformly, with no lever-arm contribution.
    pub fn set_vel(&self, world: &mut World, v: Vec3)
        requires
            old(world).wf(),
            self.wf(),
            v.in_range(),
        ensures
            final(world).wf(),
            final(world).joints@ == old(world).joints@,
            final(world).colliders@ == old(world).colliders@,
            final(world).gravity == old(world).gravity,
            final(world).timestep_ns == old(world).timestep_ns,
            final(world).bodies@.len() == old(world).bodies@.len(),
            forall|i: int|
                0 <= i < old(world).bodies@.len() ==> final(world).bodies@[i] == if
                    spec_handle_in_prefix(self.bodies@, self.bodies@.len() as int, i) {
                    match old(world).bodies@[i] {
                        Some(b) => Some(Body { vel: v, ..b }),
                        None => None::<Body>,
                    }
                } else {
                    old(world).bodies@[i]
                },
    {
        let n = self.bodies.len();
        let mut k: usize = 0;
        while k < n
            invariant
                self.wf(),
                v.in_range(),
                n == self.bodies@.len(),
                k <= n,
                world.wf(),
                world.joints@ == old(world).joints@,
                world.colliders@ == old(world).colliders@,
                world.gravity == old(world).gravity,
                world.timestep_ns == old(world).timestep_ns,
                world.bodies@.len() == old(world).bodies@.len(),
                forall|i: int|
                    0 <= i < old(world).bodies@.len() ==> world.bodies@[i] == if
                        spec_handle_in_prefix(self.bodies@, k as int, i) {
                        match old(world).bodies@[i] {
                            Some(b) => Some(Body { vel: v, ..b }),
                            None => None::<Body>,
                        }
                    } else {
                        old(world).bodies@[i]
                    },
            decreases n - k,
        {
            let h = self.bodies[k];
            world.set_body_vel(h, v);
            proof {
                assert forall|i: int| 0 <= i < old(world).bodies@.len() implies world.bodies@[i]
                    == if spec_handle_in_prefix(self.bodies@, k + 1, i) {
                    match old(world).bodies@[i] {
                        Some(b) => Some(Body { vel: v, ..b }),
                        None => None::<Body>,
                    }
                } else {
                    old(world).bodies@[i]
                } by {
                    if i == h {
                        assert(self.bodies@[k as int] == h);
                        assert(spec_handle_in_prefix(self.bodies@, k + 1, i));
                    } else {
                        if spec_handle_in_prefix(self.bodies@, k + 1, i) {
                            let m = choose|m: int|
                                0 <= m < k + 1 && (#[trigger] self.bodies@[m]) == i;
                            assert(m < k);
                            assert(spec_handle_in_prefix(self.bodies@, k as int, i));
                        }
                    }
                }
            }
            k = k + 1;
        }
    }
}

/// The draw command component `k` contributes: one item if its body
/// handle resolves, nothing otherwise.
pub open spec fn spec_render_entry(e: Entity, bodies: Seq<Option<Body>>, k: int) -> Seq<
    RenderItem,
> {
    match crate::gravity::spec_lookup(bodies, e.bodies@[k] as int) {
        Some(b) => seq![
            RenderItem {
                mesh: e.meshes@[k].1,
                body_pos: b.pos,
                body_rot: b.rot,
                local: e.meshes@[k].0,
            },
        ],
        None => Seq::<RenderItem>::empty(),
    }
}

/// The draw commands of the components from `k` on.
pub open spec fn spec_render_items_from(e: Entity, bodies: Seq<Option<Body>>, k: int) -> Seq<
    RenderItem,
>
    decreases e.meshes@.len() - k,
{
    if k < 0 || k >= e.meshes@.len() {
        Seq::<RenderItem>::empty()
    } else {
        spec_render_entry(e, bodies, k) + spec_render_items_from(e, bodies, k + 1)
    }
}

/// The draw commands of a whole entity.
pub open spec fn spec_render_items(e: Entity, bodies: Seq<Option<Body>>) -> Seq<RenderItem> {
    spec_render_items_from(e, bodies, 0)
}

/// Joint-before-body removal: in any entity's removal plan, every
/// joint removal stands strictly before every body removal.
pub proof fn lemma_removal_plan_order(e: Entity)
    ensures
        spec_removal_plan(e).len() == e.joints@.len() + e.colliders@.len() + e.bodies@.len(),
        forall|i: int|
            0 <= i < e.joints@.len() ==> #[trigger] spec_removal_plan(e)[i]
                == RemovalOp::RemoveJoint(e.joints@[i]),
        forall|i: int|
            e.joints@.len() + e.colliders@.len() <= i < spec_removal_plan(e).len()
                ==> #[trigger] spec_removal_plan(e)[i] == RemovalOp::RemoveBody(
                e.bodies@[i - e.joints@.len() - e.colliders@.len()],
            ),
        forall|i: int, j: int|
            0 <= i < spec_removal_plan(e).len() && 0 <= j < spec_removal_plan(e).len() && (
            #[trigger] spec_removal_plan(e)[i]) is RemoveBody && (
            #[trigger] spec_removal_plan(e)[j]) is RemoveJoint ==> j < i,
{
    let plan = spec_removal_plan(e);
    let nj = e.joints@.len() as int;
    let nc = e.colliders@.len() as int;
    let nb = e.bodies@.len() as int;
    assert forall|i: int| 0 <= i < plan.len() implies (if i < nj {
        plan[i] == RemovalOp::RemoveJoint(e.joints@[i])
    } else if i < nj + nc {
        plan[i] == RemovalOp::RemoveCollider(e.colliders@[i - nj])
    } else {
        plan[i] == RemovalOp::RemoveBody(e.bodies@[i - nj - nc])
    }) by {
    }
}

} // verus!
