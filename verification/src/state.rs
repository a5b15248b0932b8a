//! The authoritative simulation state: the world, the entity table,
//! the gravity policy and the camera, light and UI flags, together
//! with the fixed-timestep `tick` that advances it all.
//!
//! Entity ids are allocated from a counter that never decreases, so an
//! id is never reused within one `GameState`, even after its entity is
//! removed.

use vstd::prelude::*;

use crate::camera::{spec_camera_mouse, spec_camera_translate, Camera};
use crate::entity::{spec_handle_in_prefix, Entity, EntityBuilder};
use crate::event::{ElementState, Event};
use crate::gravity::{
    apply_force_pairs, gravity_force_pairs, spec_apply_prefix, spec_force_pairs, G_LIMIT,
};
use crate::key::{spec_key_transition, KeyboardState};
use crate::light::{Light, Vec4};
use crate::math::{spec_clamp, spec_div_trunc, Vec3};
use crate::mesh::RenderItem;
use crate::settings::Settings;
use crate::world::{spec_step_body, Body, Collider, Joint, World, DT_LIMIT};

verus! {

/// The size the frame counter is drawn at, milli pixels.
pub const FONT_SIZE: i64 = 20_000;

/// Camera speed, milli units per second.
pub const CAMERA_SPEED: i64 = 4000;

/// The id of an entity within one `GameState`.
pub type EntityId = u32;

/// Gravity type of the simulation.
#[derive(Clone, Copy, Debug, PartialEq, Eq, Structural)]
pub enum Gravity {
    /// Each entity attracts each other entity, scaled by the given
    /// strength (milli units).
    Relative(i64),
    /// Each body is accelerated by this constant vector.
    Constant(Vec3),
    /// No gravity is applied.
    Off,
}

/// Whether a gravity policy is within the tracked ranges.
pub open spec fn gravity_wf(g: Gravity) -> bool {
    match g {
        Gravity::Constant(v) => v.in_range(),
        _ => true,
    }
}

/// The first position at or after `k` where the table holds `id`.
pub open spec fn spec_index_of_from(s: Seq<(EntityId, Entity)>, id: EntityId, k: int) -> Option<
    int,
>
    decreases s.len() - k,
{
    if k < 0 || k >= s.len() {
        None
    } else if s[k].0 == id {
        Some(k)
    } else {
        spec_index_of_from(s, id, k + 1)
    }
}

/// The position of `id` in the entity table, if present.
pub open spec fn spec_index_of(s: Seq<(EntityId, Entity)>, id: EntityId) -> Option<int> {
    spec_index_of_from(s, id, 0)
}

/// Whether the entity table holds `id`.
pub open spec fn spec_has_entity(s: Seq<(EntityId, Entity)>, id: EntityId) -> bool {
    spec_index_of(s, id) is Some
}

/// What `spec_index_of_from` finds: a position in range carrying the
/// id, with no earlier carrier at or after `k`; or, if nothing, no
/// carrier at or after `k` at all.
pub proof fn lemma_index_of_from_props(s: Seq<(EntityId, Entity)>, id: EntityId, k: int)
    requires
        k >= 0,
    ensures
        match spec_index_of_from(s, id, k) {
            Some(i) => k <= i < s.len() && s[i].0 == id && forall|m: int|
                k <= m < i ==> (#[trigger] s[m]).0 != id,
            None => forall|m: int| k <= m < s.len() ==> (#[trigger] s[m]).0 != id,
        },
    decreases s.len() - k,
{
    if k < s.len() && s[k].0 != id {
        lemma_index_of_from_props(s, id, k + 1);
    }
}

/// The roots of the entity table: each entity's id with the handle of
/// its root component's body.
pub open spec fn spec_roots(s: Seq<(EntityId, Entity)>) -> Seq<(u32, usize)> {
    s.map_values(|p: (EntityId, Entity)| (p.0, p.1.bodies@[0]))
}

/// The gravity vector handed to the world: a constant policy sets its
/// vector, no gravity sets zero, and the relative policy leaves the
/// previous vector in place and applies pair forces instead.
pub open spec fn spec_gravity_vector(g: Gravity, prev: Vec3) -> Vec3 {
    match g {
        Gravity::Relative(_) => prev,
        Gravity::Constant(v) => v,
        Gravity::Off => Vec3 { x: 0, y: 0, z: 0 },
    }
}

/// A body arena after the relative-gravity pass with strength `g`
/// (clamped to the tracked range) over the given roots.
pub open spec fn spec_grav_applied(
    bodies: Seq<Option<Body>>,
    roots: Seq<(u32, usize)>,
    g: int,
) -> Seq<Option<Body>> {
    let gc = spec_clamp(g, G_LIMIT as int);
    let pairs = spec_force_pairs(bodies, gc, roots);
    spec_apply_prefix(bodies, pairs, pairs.len() as int)
}

/// A body arena after the gravity policy's force pass: only the
/// relative policy touches the accumulators.
pub open spec fn spec_policy_forces(
    bodies: Seq<Option<Body>>,
    roots: Seq<(u32, usize)>,
    g: Gravity,
) -> Seq<Option<Body>> {
    match g {
        Gravity::Relative(gv) => spec_grav_applied(bodies, roots, gv as int),
        _ => bodies,
    }
}

/// A body arena integrated by one step of `dt` nanoseconds under the
/// gravity vector `gvec`.
pub open spec fn spec_stepped(bodies: Seq<Option<Body>>, gvec: Vec3, dt: int) -> Seq<
    Option<Body>,
> {
    Seq::new(
        bodies.len(),
        |i: int|
            match bodies[i] {
                Some(b) => Some(spec_step_body(b, gvec, dt)),
                None => None,
            },
    )
}

/// One whole physics tick of a body arena: the policy's pair forces,
/// then one integration step.
pub open spec fn spec_sim_tick(
    bodies: Seq<Option<Body>>,
    roots: Seq<(u32, usize)>,
    g: Gravity,
    prev_gvec: Vec3,
    dt: int,
) -> Seq<Option<Body>> {
    spec_stepped(spec_policy_forces(bodies, roots, g), spec_gravity_vector(g, prev_gvec), dt)
}

/// The pressed-key set after the first `n` events.
pub open spec fn spec_keys_after(kb: Set<u32>, events: Seq<Event>, n: int) -> Set<u32>
    decreases n,
{
    if n <= 0 {
        kb
    } else {
        let prev = spec_keys_after(kb, events, n - 1);
        match events[n - 1] {
            Event::KeyboardInput { state, code } => spec_key_transition(prev, state, code),
            _ => prev,
        }
    }
}

/// The wireframe flag after the first `n` events: every press of the
/// toggle key flips it.
pub open spec fn spec_wireframe_after(
    w: bool,
    events: Seq<Event>,
    toggle: Option<u32>,
    n: int,
) -> bool
    decreases n,
{
    if n <= 0 {
        w
    } else {
        let prev = spec_wireframe_after(w, events, toggle, n - 1);
        match events[n - 1] {
            Event::KeyboardInput { state: ElementState::Pressed, code } => if toggle == Some(code) {
                !prev
            } else {
                prev
            },
            _ => prev,
        }
    }
}

/// The camera translation one tick applies: the per-second speed
/// scaled by the timestep, along each axis whose movement key is
/// held.
pub open spec fn spec_camera_trans(pressed: Set<u32>, s: Settings, dt: int) -> Vec3 {
    let speed = spec_div_trunc(CAMERA_SPEED * dt, 1_000_000_000);
    Vec3 {
        x: ((if pressed.contains(s.right) {
            speed
        } else {
            0
        }) - (if pressed.contains(s.left) {
            speed
        } else {
            0
        })) as i64,
        y: ((if pressed.contains(s.up) {
            speed
        } else {
            0
        }) - (if pressed.contains(s.down) {
            speed
        } else {
            0
        })) as i64,
        z: ((if pressed.contains(s.backward) {
            speed
        } else {
            0
        }) - (if pressed.contains(s.forward) {
            speed
        } else {
            0
        })) as i64,
    }
}

/// The camera after one tick: translated by the key-driven movement,
/// then rotated by the mouse movement.
pub open spec fn spec_camera_after(
    cam: Camera,
    pressed: Set<u32>,
    s: Settings,
    dt: int,
    mdx: int,
    mdy: int,
) -> Camera {
    spec_camera_mouse(spec_camera_translate(cam, spec_camera_trans(pressed, s, dt)), mdx, mdy)
}

/// Everything the renderer needs for one frame, as plain values.
pub struct RenderPlan {
    pub camera: Camera,
    pub ambient_light: Vec4,
    pub light: Light,
    pub wireframe_mode: bool,
    pub items: Vec<RenderItem>,
    pub fps: u32,
}

/// The draw commands of the first `k` entities of the table.
pub open spec fn spec_state_render_items(
    s: Seq<(EntityId, Entity)>,
    bodies: Seq<Option<Body>>,
    k: int,
) -> Seq<RenderItem>
    decreases k,
{
    if k <= 0 {
        Seq::<RenderItem>::empty()
    } else {
        spec_state_render_items(s, bodies, k - 1) + crate::entity::spec_render_items(
            s[k - 1].1,
            bodies,
        )
    }
}

/// Holds the state of the game.
pub struct GameState {
    pub world: World,
    pub gravity: Gravity,
    pub next_free_id: EntityId,
    pub entities: Vec<(EntityId, Entity)>,
    pub keyboard_state: KeyboardState,
    pub camera: Camera,
    pub light: Light,
    pub ambient_light: Vec4,
    pub wireframe_mode: bool,
}

impl GameState {
    /// A well-formed game state: a well-formed world, camera and
    /// gravity policy, every entity well-formed, and the table sorted
    /// by strictly increasing ids, all below the allocation counter.
    pub open spec fn wf(self) -> bool {
        &&& self.world.wf()
        &&& gravity_wf(self.gravity)
        &&& self.camera.wf()
        &&& forall|k: int|
            0 <= k < self.entities@.len() ==> (#[trigger] self.entities@[k]).1.wf()
        &&& forall|k: int|
            0 <= k < self.entities@.len() ==> (#[trigger] self.entities@[k]).0
                < self.next_free_id
        &&& forall|k1: int, k2: int|
            0 <= k1 < k2 < self.entities@.len() ==> (#[trigger] self.entities@[k1]).0 < (
            #[trigger] self.entities@[k2]).0
    }

    /// A new game state with the given camera and gravity policy, an
    /// empty world and the main light off.
    pub fn new(cam: Camera, g: Gravity) -> (s: GameState)
        requires
            cam.wf(),
            gravity_wf(g),
        ensures
            s.wf(),
            s.gravity == g,
            s.camera == cam,
            s.next_free_id == 0,
            s.entities@.len() == 0,
            s.world.bodies@.len() == 0,
            s.world.joints@.len() == 0,
            s.world.colliders@.len() == 0,
            s.keyboard_state@ == Set::<u32>::empty(),
            s.light == Light::spec_off(),
            s.ambient_light == (Vec4 { x: 50, y: 50, z: 50, w: 1000 }),
            s.wireframe_mode == false,
    {
        GameState {
            world: World::new(),
            gravity: g,
            next_free_id: 0,
            entities: Vec::new(),
            keyboard_state: KeyboardState::new(),
            camera: cam,
            light: Light::off(),
            ambient_light: Vec4 { x: 50, y: 50, z: 50, w: 1000 },
            wireframe_mode: false,
        }
    }

    /// Replaces the ambient light.
    pub fn set_ambient_light(&mut self, ambient_light: Vec4)
        ensures
            *final(self) == (GameState { ambient_light, ..*old(self) }),
    {
        self.ambient_light = ambient_light;
    }

    /// The main light.
    pub fn light(&self) -> (l: Light)
        ensures
            l == self.light,
    {
        self.light
    }

    /// Replaces the main light.
    pub fn set_light(&mut self, l: Light)
        ensures
            *final(self) == (GameState { light: l, ..*old(self) }),
    {
        self.light = l;
    }

    /// The camera.
    pub fn camera(&self) -> (c: Camera)
        ensures
            c == self.camera,
    {
        self.camera
    }

    /// Adds an entity to the world: allocates a fresh id, commits the
    /// builder, and stores the entity under the id.  The returned id
    /// is the allocation counter's value, which then increases, so
    /// ids grow strictly monotonically and are never reused.
    pub fn add_entity(&mut self, build: EntityBuilder) -> (id: EntityId)
        requires
            old(self).wf(),
            build.wf(),
            build.components@.len() >= 1,
            old(self).next_free_id < 0xffff_ffff,
        ensures
            final(self).wf(),
            id == old(self).next_free_id,
            !spec_has_entity(old(self).entities@, id),
            final(self).next_free_id == old(self).next_free_id + 1,
            final(self).entities@.len() == old(self).entities@.len() + 1,
            forall|k: int|
                0 <= k < old(self).entities@.len() ==> final(self).entities@[k] == old(
                    self,
                ).entities@[k],
            final(self).entities@[old(self).entities@.len() as int].0 == id,
            spec_index_of(final(self).entities@, id) == Some(old(self).entities@.len() as int),
            ({
                let e = final(self).entities@[old(self).entities@.len() as int].1;
                &&& e.mass == build.spec_entity_mass()
                &&& e.bodies@.len() == build.components@.len()
                &&& forall|k: int|
                    0 <= k < build.components@.len() ==> #[trigger] e.bodies@[k] == old(
                        self,
                    ).world.bodies@.len() + k
                &&& e.colliders@.len() == build.components@.len()
                &&& forall|k: int|
                    0 <= k < build.components@.len() ==> #[trigger] e.colliders@[k] == old(
                        self,
                    ).world.colliders@.len() + k
                &&& e.joints@.len() == build.joints@.len()
                &&& forall|j: int|
                    0 <= j < build.joints@.len() ==> #[trigger] e.joints@[j] == old(
                        self,
                    ).world.joints@.len() + j
                &&& e.meshes@.len() == build.components@.len()
                &&& forall|k: int|
                    0 <= k < build.components@.len() ==> #[trigger] e.meshes@[k] == (
                        build.components@[k].iso,
                        build.components@[k].mesh,
                    )
            }),
            final(self).world.bodies@.len() == old(self).world.bodies@.len()
                + build.components@.len(),
            forall|i: int|
                0 <= i < old(self).world.bodies@.len() ==> final(self).world.bodies@[i] == old(
                    self,
                ).world.bodies@[i],
            forall|i: int|
                old(self).world.bodies@.len() <= i < final(self).world.bodies@.len()
                    ==> #[trigger] final(self).world.bodies@[i] == Some(
                    build.spec_component_body(i - old(self).world.bodies@.len()),
                ),
            final(self).world.colliders@.len() == old(self).world.colliders@.len()
                + build.components@.len(),
            forall|i: int|
                0 <= i < old(self).world.colliders@.len() ==> final(self).world.colliders@[i]
                    == old(self).world.colliders@[i],
            forall|i: int|
                old(self).world.colliders@.len() <= i < final(self).world.colliders@.len()
                    ==> #[trigger] final(self).world.colliders@[i] == Some(
                    Collider {
                        body: (old(self).world.bodies@.len() + (i - old(
                            self,
                        ).world.colliders@.len())) as usize,
                        restitution: build.restitution,
                        friction: build.friction,
                    },
                ),
            final(self).world.joints@.len() == old(self).world.joints@.len()
                + build.joints@.len(),
            forall|i: int|
                0 <= i < old(self).world.joints@.len() ==> final(self).world.joints@[i] == old(
                    self,
                ).world.joints@[i],
            forall|i: int|
                old(self).world.joints@.len() <= i < final(self).world.joints@.len()
                    ==> #[trigger] final(self).world.joints@[i] == Some(
                    build.spec_built_joint(
                        i - old(self).world.joints@.len(),
                        old(self).world.bodies@.len() as int,
                    ),
                ),
            final(self).world.gravity == old(self).world.gravity,
            final(self).world.timestep_ns == old(self).world.timestep_ns,
            final(self).gravity == old(self).gravity,
            final(self).camera == old(self).camera,
            final(self).keyboard_state@ == old(self).keyboard_state@,
            final(self).light == old(self).light,
            final(self).ambient_light == old(self).ambient_light,
            final(self).wireframe_mode == old(self).wireframe_mode,
    {
        let id = self.next_free_id;
        proof {
            lemma_index_of_from_props(self.entities@, id, 0);
            if spec_has_entity(self.entities@, id) {
                let i = spec_index_of(self.entities@, id)->Some_0;
                assert(self.entities@[i].0 < self.next_free_id);
                assert(false);
            }
        }
        self.next_free_id = self.next_free_id + 1;
        let e = build.build_world(&mut self.world);
        self.entities.push((id, e));
        proof {
            lemma_index_of_from_props(self.entities@, id, 0);
            match spec_index_of(self.entities@, id) {
                Some(i) => {
                    if i < old(self).entities@.len() {
                        assert(self.entities@[i] == old(self).entities@[i]);
                        assert(old(self).entities@[i].0 < id);
                        assert(false);
                    }
                },
                None => {
                    assert(self.entities@[old(self).entities@.len() as int].0 == id);
                    assert(false);
                },
            }
        }
        id
    }

    /// A reference to the entity with the given id, if it is live.
    pub fn get_entity(&self, id: EntityId) -> (r: Option<&Entity>)
        ensures
            match r {
                Some(e) => {
                    &&& spec_index_of(self.entities@, id) is Some
                    &&& *e == self.entities@[spec_index_of(self.entities@, id)->Some_0].1
                },
                None => spec_index_of(self.entities@, id) is None,
            },
    {
        let n = self.entities.len();
        let mut k: usize = 0;
        while k < n
            invariant
                n == self.entities@.len(),
                k <= n,
                spec_index_of(self.entities@, id) == spec_index_of_from(
                    self.entities@,
                    id,
                    k as int,
                ),
            decreases n - k,
        {
            if self.entities[k].0 == id {
                return Some(&self.entities[k].1);
            }
            k = k + 1;
        }
        None
    }

    /// The root rigid body of the entity with the given id, if the
    /// entity is live and its body handle still resolves.
    pub fn get_entity_rigid_body(&self, id: EntityId) -> (r: Option<Body>)
        requires
            self.wf(),
        ensures
            r == match spec_index_of(self.entities@, id) {
                Some(i) => self.world.spec_body(self.entities@[i].1.bodies@[0]),
                None => None::<Body>,
            },
    {
        match self.get_entity(id) {
            Some(e) => {
                proof {
                    lemma_index_of_from_props(self.entities@, id, 0);
                }
                self.world.rigid_body(e.body())
            },
            None => None,
        }
    }

    /// Removes the entity with the given id from the world and the
    /// table, returning it; removing an id that is not live is a
    /// benign no-op.  The removal takes the entity's joints out of
    /// the world strictly before its bodies.
    pub fn remove_entity(&mut self, id: EntityId) -> (r: Option<Entity>)
        requires
            old(self).wf(),
        ensures
            final(self).wf(),
            r is Some <==> spec_has_entity(old(self).entities@, id),
            final(self).next_free_id == old(self).next_free_id,
            final(self).gravity == old(self).gravity,
            final(self).camera == old(self).camera,
            final(self).light == old(self).light,
            final(self).ambient_light == old(self).ambient_light,
            final(self).wireframe_mode == old(self).wireframe_mode,
            spec_has_entity(final(self).entities@, id) == false,
            match r {
                Some(e) => {
                    let i = spec_index_of(old(self).entities@, id)->Some_0;
                    &&& e == old(self).entities@[i].1
                    &&& final(self).entities@ == old(self).entities@.remove(i)
                    &&& final(self).world.joints@.len() == old(self).world.joints@.len()
                    &&& final(self).world.colliders@.len() == old(self).world.colliders@.len()
                    &&& final(self).world.bodies@.len() == old(self).world.bodies@.len()
                    &&& forall|m: int|
                        0 <= m < old(self).world.joints@.len() ==> final(self).world.joints@[m]
                            == if spec_handle_in_prefix(e.joints@, e.joints@.len() as int, m) {
                            None::<Joint>
                        } else {
                            old(self).world.joints@[m]
                        }
                    &&& forall|m: int|
                        0 <= m < old(self).world.colliders@.len()
                            ==> final(self).world.colliders@[m] == if spec_handle_in_prefix(
                            e.colliders@,
                            e.colliders@.len() as int,
                            m,
                        ) {
                            None::<Collider>
                        } else {
                            old(self).world.colliders@[m]
                        }
                    &&& forall|m: int|
                        0 <= m < old(self).world.bodies@.len() ==> final(self).world.bodies@[m]
                            == if spec_handle_in_prefix(e.bodies@, e.bodies@.len() as int, m) {
                            None::<Body>
                        } else {
                            old(self).world.bodies@[m]
                        }
                },
                None => *final(self) == *old(self),
            },
    {
        let n = self.entities.len();
        let mut k: usize = 0;
        while k < n
            invariant
                *self == *old(self),
                old(self).wf(),
                n == self.entities@.len(),
                k <= n,
                spec_index_of(self.entities@, id) == spec_index_of_from(
                    self.entities@,
                    id,
                    k as int,
                ),
            decreases n - k,
        {
            if self.entities[k].0 == id {
                let (_, e) = self.entities.remove(k);
                e.remove_world(&mut self.world);
                proof {
                    lemma_index_of_from_props(old(self).entities@, id, 0);
                    assert(self.entities@ =~= old(self).entities@.remove(k as int));
                    lemma_index_of_from_props(self.entities@, id, 0);
                    if spec_has_entity(self.entities@, id) {
                        let i = spec_index_of(self.entities@, id)->Some_0;
                        if i < k {
                            assert(old(self).entities@[i].0 != id);
                            assert(self.entities@[i] == old(self).entities@[i]);
                        } else {
                            assert(self.entities@[i] == old(self).entities@[i + 1]);
                            assert(old(self).entities@[k as int].0 < old(
                                self,
                            ).entities@[i + 1].0);
                        }
                        assert(false);
                    }
                }
                return Some(e);
            }
            k = k + 1;
        }
        proof {
            lemma_index_of_from_props(self.entities@, id, 0);
        }
        None
    }

    /// The root list of the entity table: each id with its root
    /// body handle.
    fn roots(&self) -> (r: Vec<(u32, usize)>)
        requires
            self.wf(),
        ensures
            r@ == spec_roots(self.entities@),
    {
        let n = self.entities.len();
        let mut r: Vec<(u32, usize)> = Vec::new();
        let mut k: usize = 0;
        while k < n
            invariant
                self.wf(),
                n == self.entities@.len(),
                k <= n,
                r@.len() == k,
                forall|m: int|
                    0 <= m < k ==> r@[m] == (
                        self.entities@[m].0,
                        self.entities@[m].1.bodies@[0],
                    ),
            decreases n - k,
        {
            let id = self.entities[k].0;
            let h = self.entities[k].1.body();
            r.push((id, h));
            k = k + 1;
        }
        proof {
            assert(r@ =~= spec_roots(self.entities@));
        }
        r
    }

    /// Calculates and applies relative gravity across all entity
    /// pairs: every unordered pair of live movable root bodies gets
    /// one force and its exact negation, per the inverse-square law
    /// with strength `g` (clamped to the tracked range).
    pub fn calculate_gravity(&mut self, g: i64)
        requires
            old(self).wf(),
        ensures
            final(self).wf(),
            final(self).world.bodies@ == spec_grav_applied(
                old(self).world.bodies@,
                spec_roots(old(self).entities@),
                g as int,
            ),
            final(self).world.joints@ == old(self).world.joints@,
            final(self).world.colliders@ == old(self).world.colliders@,
            final(self).world.gravity == old(self).world.gravity,
            final(self).world.timestep_ns == old(self).world.timestep_ns,
            final(self).entities@ == old(self).entities@,
            final(self).next_free_id == old(self).next_free_id,
            final(self).gravity == old(self).gravity,
            final(self).camera == old(self).camera,
            final(self).keyboard_state@ == old(self).keyboard_state@,
            final(self).light == old(self).light,
            final(self).ambient_light == old(self).ambient_light,
            final(self).wireframe_mode == old(self).wireframe_mode,
    {
        let gc: i64 = if g > G_LIMIT {
            G_LIMIT
        } else if g < -G_LIMIT {
            -G_LIMIT
        } else {
            g
        };
        let roots = self.roots();
        let pairs = gravity_force_pairs(&self.world, &roots, gc);
        apply_force_pairs(&mut self.world, &pairs);
    }

    /// Processes a tick of the game state: drains the input events
    /// into the keyboard state and the wireframe flag, moves the
    /// camera by the held keys and the mouse, and, unless paused,
    /// applies the gravity policy and steps the world by exactly the
    /// fixed timestep.
    pub fn tick(
        &mut self,
        dt_ns: u64,
        settings: &Settings,
        events: &Vec<Event>,
        mouse_dx: i64,
        mouse_dy: i64,
    )
        requires
            old(self).wf(),
            dt_ns <= DT_LIMIT,
            -100_000_000 <= mouse_dx <= 100_000_000,
            -100_000_000 <= mouse_dy <= 100_000_000,
        ensures
            final(self).wf(),
            final(self).keyboard_state@ == spec_keys_after(
                old(self).keyboard_state@,
                events@,
                events@.len() as int,
            ),
            final(self).wireframe_mode == spec_wireframe_after(
                old(self).wireframe_mode,
                events@,
                settings.wireframe_toggle,
                events@.len() as int,
            ),
            final(self).camera == spec_camera_after(
                old(self).camera,
                final(self).keyboard_state@,
                *settings,
                dt_ns as int,
                mouse_dx as int,
                mouse_dy as int,
            ),
            final(self).entities@ == old(self).entities@,
            final(self).next_free_id == old(self).next_free_id,
            final(self).gravity == old(self).gravity,
            final(self).light == old(self).light,
            final(self).ambient_light == old(self).ambient_light,
            final(self).world.joints@ == old(self).world.joints@,
            final(self).world.colliders@ == old(self).world.colliders@,
            settings.paused ==> final(self).world == old(self).world,
            !settings.paused ==> {
                &&& final(self).world.timestep_ns == dt_ns
                &&& final(self).world.gravity == spec_gravity_vector(
                    old(self).gravity,
                    old(self).world.gravity,
                )
                &&& final(self).world.bodies@ == spec_sim_tick(
                    old(self).world.bodies@,
                    spec_roots(old(self).entities@),
                    old(self).gravity,
                    old(self).world.gravity,
                    dt_ns as int,
                )
            },
    {
        self.process_input(settings, events);
        let trans = camera_trans(&self.keyboard_state, settings, dt_ns);
        self.camera.translate(trans);
        self.camera.mouse_moved(mouse_dx, mouse_dy);
        if !settings.paused {
            match self.gravity {
                Gravity::Relative(g) => self.calculate_gravity(g),
                Gravity::Constant(v) => self.world.set_gravity(v),
                Gravity::Off => self.world.set_gravity(Vec3::new()),
            }
            self.world.set_timestep(dt_ns);
            let ghost before = self.world.bodies@;
            self.world.step();
            proof {
                assert(self.world.bodies@ =~= spec_stepped(
                    before,
                    self.world.gravity,
                    dt_ns as int,
                ));
            }
        }
    }

    /// Folds the input events into the keyboard state and the
    /// wireframe flag.
    fn process_input(&mut self, settings: &Settings, events: &Vec<Event>)
        requires
            old(self).wf(),
        ensures
            final(self).wf(),
            final(self).keyboard_state@ == spec_keys_after(
                old(self).keyboard_state@,
                events@,
                events@.len() as int,
            ),
            final(self).wireframe_mode == spec_wireframe_after(
                old(self).wireframe_mode,
                events@,
                settings.wireframe_toggle,
                events@.len() as int,
            ),
            final(self).world == old(self).world,
            final(self).entities@ == old(self).entities@,
            final(self).next_free_id == old(self).next_free_id,
            final(self).gravity == old(self).gravity,
            final(self).camera == old(self).camera,
            final(self).light == old(self).light,
            final(self).ambient_light == old(self).ambient_light,
    {
        let n = events.len();
        let mut k: usize = 0;
        while k < n
            invariant
                n == events@.len(),
                k <= n,
                self.keyboard_state@ == spec_keys_after(
                    old(self).keyboard_state@,
                    events@,
                    k as int,
                ),
                self.wireframe_mode == spec_wireframe_after(
                    old(self).wireframe_mode,
                    events@,
                    settings.wireframe_toggle,
                    k as int,
                ),
                self.world == old(self).world,
                self.entities@ == old(self).entities@,
                self.next_free_id == old(self).next_free_id,
                self.gravity == old(self).gravity,
                self.camera == old(self).camera,
                self.light == old(self).light,
                self.ambient_light == old(self).ambient_light,
                old(self).wf(),
            decreases n - k,
        {
            let ev = events[k];
            if let Event::KeyboardInput { state, code } = ev {
                self.keyboard_state.process_event(state, code);
                if let ElementState::Pressed = state {
                    let toggles = match settings.wireframe_toggle {
                        Some(t) => t == code,
                        None => false,
                    };
                    if toggles {
                        self.wireframe_mode = !self.wireframe_mode;
                    }
                }
            }
            k = k + 1;
        }
    }

    /// Projects the state for one frame: the camera, lights and
    /// wireframe flag, plus one draw command per live entity mesh.
    /// Rendering never mutates the simulation.
    pub fn render(&self, fps: u32) -> (plan: RenderPlan)
        requires
            self.wf(),
        ensures
            plan.camera == self.camera,
            plan.ambient_light == self.ambient_light,
            plan.light == self.light,
            plan.wireframe_mode == self.wireframe_mode,
            plan.fps == fps,
            plan.items@ == spec_state_render_items(
                self.entities@,
                self.world.bodies@,
                self.entities@.len() as int,
            ),
    {
        let n = self.entities.len();
        let mut items: Vec<RenderItem> = Vec::new();
        let mut k: usize = 0;
        while k < n
            invariant
                self.wf(),
                n == self.entities@.len(),
                k <= n,
                items@ == spec_state_render_items(self.entities@, self.world.bodies@, k as int),
            decreases n - k,
        {
            let mut its = self.entities[k].1.render(&self.world);
            items.append(&mut its);
            k = k + 1;
        }
        RenderPlan {
            camera: self.camera,
            ambient_light: self.ambient_light,
            light: self.light,
            wireframe_mode: self.wireframe_mode,
            items,
            fps,
        }
    }
}

/// Id monotonicity: in a well-formed state every stored id lies below
/// the allocation counter, so the id the next `add_entity` returns
/// (the counter itself) is held by no entity — ids grow strictly and
/// are never reused, and a removed id can never reappear.
pub proof fn lemma_fresh_id(s: GameState)
    requires
        s.wf(),
    ensures
        !spec_has_entity(s.entities@, s.next_free_id),
        forall|k: int|
            0 <= k < s.entities@.len() ==> (#[trigger] s.entities@[k]).0 < s.next_free_id,
{
    lemma_index_of_from_props(s.entities@, s.next_free_id, 0);
    if spec_has_entity(s.entities@, s.next_free_id) {
        let i = spec_index_of(s.entities@, s.next_free_id)->Some_0;
        assert(s.entities@[i].0 < s.next_free_id);
        assert(false);
    }
}

/// The gravity vector the world holds after at least one unpaused
/// tick of a given policy.
pub open spec fn spec_gvec_after(g: Gravity, prev: Vec3, n: nat) -> Vec3 {
    if n == 0 {
        prev
    } else {
        spec_gravity_vector(g, prev)
    }
}

/// A body arena after `n` whole physics ticks of a fixed timestep.
pub open spec fn spec_sim_ticks(
    bodies: Seq<Option<Body>>,
    roots: Seq<(u32, usize)>,
    g: Gravity,
    prev_gvec: Vec3,
    dt: int,
    n: nat,
) -> Seq<Option<Body>>
    decreases n,
{
    if n == 0 {
        bodies
    } else {
        spec_sim_ticks(
            spec_sim_tick(bodies, roots, g, prev_gvec, dt),
            roots,
            g,
            spec_gravity_vector(g, prev_gvec),
            dt,
            (n - 1) as nat,
        )
    }
}

/// One physics tick is one unrolling of the iterated form.
pub proof fn lemma_sim_ticks_one(
    bodies: Seq<Option<Body>>,
    roots: Seq<(u32, usize)>,
    g: Gravity,
    prev_gvec: Vec3,
    dt: int,
)
    ensures
        spec_sim_ticks(bodies, roots, g, prev_gvec, dt, 1) == spec_sim_tick(
            bodies,
            roots,
            g,
            prev_gvec,
            dt,
        ),
{
    assert(spec_sim_ticks(bodies, roots, g, prev_gvec, dt, 1) == spec_sim_ticks(
        spec_sim_tick(bodies, roots, g, prev_gvec, dt),
        roots,
        g,
        spec_gravity_vector(g, prev_gvec),
        dt,
        0,
    ));
}

/// Fixed-step determinism: running `n1 + n2` physics ticks of the
/// fixed timestep is the same as running `n1` and then `n2`, however
/// the ticks are grouped between frames.  Rendering cannot interfere:
/// it borrows the state immutably.
pub proof fn lemma_fixed_step_determinism(
    bodies: Seq<Option<Body>>,
    roots: Seq<(u32, usize)>,
    g: Gravity,
    prev_gvec: Vec3,
    dt: int,
    n1: nat,
    n2: nat,
)
    ensures
        spec_sim_ticks(bodies, roots, g, prev_gvec, dt, n1 + n2) == spec_sim_ticks(
            spec_sim_ticks(bodies, roots, g, prev_gvec, dt, n1),
            roots,
            g,
            spec_gvec_after(g, prev_gvec, n1),
            dt,
            n2,
        ),
    decreases n1,
{
    if n1 == 0 {
    } else {
        lemma_fixed_step_determinism(
            spec_sim_tick(bodies, roots, g, prev_gvec, dt),
            roots,
            g,
            spec_gravity_vector(g, prev_gvec),
            dt,
            (n1 - 1) as nat,
            n2,
        );
        assert(spec_gravity_vector(g, spec_gravity_vector(g, prev_gvec)) == spec_gravity_vector(
            g,
            prev_gvec,
        ));
    }
}

/// The camera translation for this tick; matches `spec_camera_trans`.
fn camera_trans(kb: &KeyboardState, settings: &Settings, dt: u64) -> (t: Vec3)
    requires
        dt <= DT_LIMIT,
    ensures
        t == spec_camera_trans(kb@, *settings, dt as int),
        t.in_range(),
{
    proof {
        crate::math::lemma_abs_mul_le(CAMERA_SPEED as int, dt as int, CAMERA_SPEED as int, DT_LIMIT as int);
        crate::math::lemma_div_trunc_abs_le(
            (CAMERA_SPEED as int) * (dt as int),
            1_000_000_000,
            (CAMERA_SPEED as int) * (DT_LIMIT as int),
        );
        assert(0 <= (CAMERA_SPEED as int) * (dt as int) / 1_000_000_000 <= 40_000)
            by (nonlinear_arith)
            requires
                0 <= dt <= DT_LIMIT,
                DT_LIMIT == 10_000_000_000,
                CAMERA_SPEED == 4000,
        {}
    }
    let speed: i64 = (((CAMERA_SPEED as i128) * (dt as i128)) / 1_000_000_000) as i64;
    let x1: i64 = if kb.is_pressed(settings.right) {
        speed
    } else {
        0
    };
    let x2: i64 = if kb.is_pressed(settings.left) {
        speed
    } else {
        0
    };
    let y1: i64 = if kb.is_pressed(settings.up) {
        speed
    } else {
        0
    };
    let y2: i64 = if kb.is_pressed(settings.down) {
        speed
    } else {
        0
    };
    let z1: i64 = if kb.is_pressed(settings.backward) {
        speed
    } else {
        0
    };
    let z2: i64 = if kb.is_pressed(settings.forward) {
        speed
    } else {
        0
    };
    Vec3 { x: x1 - x2, y: y1 - y2, z: z1 - z2 }
}

} // verus!
