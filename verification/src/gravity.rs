//! Relative gravity: the pairwise inverse-square attraction applied
//! outside the world's constant gravity field.
//!
//! For a pair of bodies at `pa` and `pb` with masses `ma` and `mb`
//! (milli units) and a strength `g`, the force on the body at `pa`
//! points toward `pb` and has magnitude `g * ma * mb / d2`, where `d2`
//! is the squared distance; the body at `pb` receives the exact
//! negation.  A coincident pair gets the zero force instead of a
//! division by zero.  All arithmetic is fixed-point and every
//! truncation is part of the specification.

use vstd::prelude::*;

use crate::math::{
    spec_isqrt, lemma_isqrt_property, lemma_isqrt_pos, lemma_abs_mul_le, isqrt_u128, Vec3,
    MASS_LIMIT, FORCE_LIMIT,
};
use crate::world::{force_in_range, spec_accumulate_force, Body, BodyStatus, World};

verus! {

/// Largest relative-gravity strength the pass accepts, in milli units.
pub const G_LIMIT: i64 = 1_000_000_000_000;

/// The magnitude of an integer.
pub open spec fn spec_abs(a: int) -> int {
    if a < 0 {
        -a
    } else {
        a
    }
}

/// The attraction magnitude for one pair: `|g| * ma * mb / d2`,
/// clamped to the tracked force range.
pub open spec fn spec_grav_mag(g: int, ma: int, mb: int, d2: int) -> int
    recommends
        d2 >= 1,
        ma >= 0,
        mb >= 0,
{
    let raw = spec_abs(g) * ma * mb / d2;
    if raw > FORCE_LIMIT {
        FORCE_LIMIT as int
    } else {
        raw
    }
}

/// One component of the pair force: the magnitude scaled by this
/// axis's share of the direction, with the sign of the axis delta,
/// flipped for a repulsive (negative) strength.
pub open spec fn spec_grav_comp(d: int, g: int, mag: int, len: int) -> int
    recommends
        len >= 1,
        mag >= 0,
{
    let c = spec_abs(d) * mag / len;
    if (d < 0) != (g < 0) {
        -c
    } else {
        c
    }
}

/// The force relative gravity applies to the body at `pa`, pulling it
/// toward the body at `pb`.  The zero vector for a coincident pair.
pub open spec fn spec_grav_force(g: int, pa: Vec3, pb: Vec3, ma: int, mb: int) -> Vec3 {
    let dx = pb.x - pa.x;
    let dy = pb.y - pa.y;
    let dz = pb.z - pa.z;
    let d2 = dx * dx + dy * dy + dz * dz;
    if d2 == 0 {
        Vec3 { x: 0, y: 0, z: 0 }
    } else {
        let len = spec_isqrt(d2 as nat) as int;
        let mag = spec_grav_mag(g, ma, mb, d2);
        Vec3 {
            x: spec_grav_comp(dx, g, mag, len) as i64,
            y: spec_grav_comp(dy, g, mag, len) as i64,
            z: spec_grav_comp(dz, g, mag, len) as i64,
        }
    }
}

/// One exec component of the pair force; matches `spec_grav_comp`.
/// The precondition `d * d < (len + 1) * (len + 1)` says that `len`
/// is at least the length of the whole delta vector, rounded down,
/// which bounds the component by the magnitude.
fn grav_comp(d: i64, g: i64, mag: i128, len: u64) -> (r: i64)
    requires
        1 <= len,
        0 <= mag <= FORCE_LIMIT,
        -4_000_000_000_000 <= d <= 4_000_000_000_000,
        (d as int) * (d as int) < ((len as int) + 1) * ((len as int) + 1),
    ensures
        r == spec_grav_comp(d as int, g as int, mag as int, len as int),
        -FORCE_LIMIT <= r <= FORCE_LIMIT,
{
    let da: i128 = if d < 0 {
        -(d as i128)
    } else {
        d as i128
    };
    proof {
        assert(da <= len) by (nonlinear_arith)
            requires
                (d as int) * (d as int) < ((len as int) + 1) * ((len as int) + 1),
                da == spec_abs(d as int),
                len >= 1,
        {}
        lemma_abs_mul_le(da as int, mag as int, 4_000_000_000_000, FORCE_LIMIT as int);
    }
    let c: i128 = (da * mag) / (len as i128);
    proof {
        assert(0 <= da * mag / (len as int) <= mag) by (nonlinear_arith)
            requires
                0 <= da <= len,
                0 <= mag,
                1 <= len,
        {}
    }
    if (d < 0) != (g < 0) {
        -(c as i64)
    } else {
        c as i64
    }
}

/// The force relative gravity applies to the body at `pa`; matches
/// `spec_grav_force`.
pub fn grav_force(g: i64, pa: Vec3, pb: Vec3, ma: i64, mb: i64) -> (f: Vec3)
    requires
        pa.in_range(),
        pb.in_range(),
        0 <= ma <= MASS_LIMIT,
        0 <= mb <= MASS_LIMIT,
        -G_LIMIT <= g <= G_LIMIT,
    ensures
        f == spec_grav_force(g as int, pa, pb, ma as int, mb as int),
        force_in_range(f),
{
    let dx: i64 = pb.x - pa.x;
    let dy: i64 = pb.y - pa.y;
    let dz: i64 = pb.z - pa.z;
    proof {
        lemma_abs_mul_le(dx as int, dx as int, 4_000_000_000_000, 4_000_000_000_000);
        lemma_abs_mul_le(dy as int, dy as int, 4_000_000_000_000, 4_000_000_000_000);
        lemma_abs_mul_le(dz as int, dz as int, 4_000_000_000_000, 4_000_000_000_000);
        assert(0 <= (dx as int) * (dx as int)) by (nonlinear_arith) {}
        assert(0 <= (dy as int) * (dy as int)) by (nonlinear_arith) {}
        assert(0 <= (dz as int) * (dz as int)) by (nonlinear_arith) {}
    }
    let d2: i128 = (dx as i128) * (dx as i128) + (dy as i128) * (dy as i128) + (dz as i128) * (
    dz as i128);
    if d2 == 0 {
        Vec3::new()
    } else {
        let len: u64 = isqrt_u128(d2 as u128);
        proof {
            if len == 0 {
                assert(d2 < ((0 + 1) as int) * ((0 + 1) as int));
                assert(false);
            }
        }
        let ga: i128 = if g < 0 {
            -(g as i128)
        } else {
            g as i128
        };
        proof {
            lemma_abs_mul_le(ga as int, ma as int, G_LIMIT as int, MASS_LIMIT as int);
            lemma_abs_mul_le(
                (ga as int) * (ma as int),
                mb as int,
                (G_LIMIT as int) * (MASS_LIMIT as int),
                MASS_LIMIT as int,
            );
            assert(0 <= (ga as int) * (ma as int) * (mb as int) / (d2 as int) <= (ga as int) * (
            ma as int) * (mb as int)) by (nonlinear_arith)
                requires
                    0 <= ga,
                    0 <= ma,
                    0 <= mb,
                    d2 >= 1,
            {}
        }
        let raw: i128 = (ga * (ma as i128) * (mb as i128)) / d2;
        let mag: i128 = if raw > FORCE_LIMIT as i128 {
            FORCE_LIMIT as i128
        } else {
            raw
        };
        Vec3 {
            x: grav_comp(dx, g, mag, len),
            y: grav_comp(dy, g, mag, len),
            z: grav_comp(dz, g, mag, len),
        }
    }
}

/// One planned force application: `force` is to be applied to the
/// first body of the pair and its negation to the second.
#[derive(Clone, Copy, Debug, PartialEq, Eq, Structural)]
pub struct ForcePair {
    pub a_id: u32,
    pub a_body: usize,
    pub b_id: u32,
    pub b_body: usize,
    pub force: Vec3,
}

/// The body a handle resolves to in a body arena, or nothing.
pub open spec fn spec_lookup(bodies: Seq<Option<Body>>, h: int) -> Option<Body> {
    if 0 <= h < bodies.len() {
        bodies[h]
    } else {
        None
    }
}

/// The entries the pass emits for one ordered pair of roots: one
/// planned application if both bodies are live and movable, nothing
/// otherwise (the static/static and infinite-mass skip rules).
pub open spec fn spec_pair_entry(
    bodies: Seq<Option<Body>>,
    g: int,
    a: (u32, usize),
    b: (u32, usize),
) -> Seq<ForcePair> {
    match (spec_lookup(bodies, a.1 as int), spec_lookup(bodies, b.1 as int)) {
        (Some(x), Some(y)) => if x.movable() && y.movable() {
            seq![
                ForcePair {
                    a_id: a.0,
                    a_body: a.1,
                    b_id: b.0,
                    b_body: b.1,
                    force: spec_grav_force(g, x.pos, y.pos, x.mass as int, y.mass as int),
                },
            ]
        } else {
            Seq::<ForcePair>::empty()
        },
        _ => Seq::<ForcePair>::empty(),
    }
}

/// The entries for the pairs `(i, j), (i, j + 1), ...` up to the end
/// of the root list.
pub open spec fn spec_pair_row(
    bodies: Seq<Option<Body>>,
    g: int,
    roots: Seq<(u32, usize)>,
    i: int,
    j: int,
) -> Seq<ForcePair>
    decreases roots.len() - j,
{
    if j < 0 || j >= roots.len() || i < 0 || i >= roots.len() {
        Seq::<ForcePair>::empty()
    } else {
        spec_pair_entry(bodies, g, roots[i], roots[j]) + spec_pair_row(bodies, g, roots, i, j + 1)
    }
}

/// The entries for all unordered pairs drawn from `roots[i..]`, each
/// pair visited exactly once.
pub open spec fn spec_pairs_from(
    bodies: Seq<Option<Body>>,
    g: int,
    roots: Seq<(u32, usize)>,
    i: int,
) -> Seq<ForcePair>
    decreases roots.len() - i,
{
    if i < 0 || i >= roots.len() {
        Seq::<ForcePair>::empty()
    } else {
        spec_pair_row(bodies, g, roots, i, i + 1) + spec_pairs_from(bodies, g, roots, i + 1)
    }
}

/// The entries for all unordered pairs of roots.
pub open spec fn spec_force_pairs(
    bodies: Seq<Option<Body>>,
    g: int,
    roots: Seq<(u32, usize)>,
) -> Seq<ForcePair> {
    spec_pairs_from(bodies, g, roots, 0)
}

/// Every root resolves to a live movable body.
pub open spec fn spec_all_movable(bodies: Seq<Option<Body>>, roots: Seq<(u32, usize)>) -> bool {
    forall|k: int|
        0 <= k < roots.len() ==> {
            let b = #[trigger] spec_lookup(bodies, roots[k].1 as int);
            b is Some && b->Some_0.movable()
        }
}

/// The planned force applications for all unordered pairs of the
/// given roots, in enumeration order; matches `spec_force_pairs`.
pub fn gravity_force_pairs(world: &World, roots: &Vec<(u32, usize)>, g: i64) -> (out: Vec<
    ForcePair,
>)
    requires
        world.wf(),
        -G_LIMIT <= g <= G_LIMIT,
    ensures
        out@ == spec_force_pairs(world.bodies@, g as int, roots@),
        forall|k: int| 0 <= k < out@.len() ==> force_in_range(#[trigger] out@[k].force),
{
    let ghost total = spec_force_pairs(world.bodies@, g as int, roots@);
    let n = roots.len();
    let mut out: Vec<ForcePair> = Vec::new();
    let mut i: usize = 0;
    while i < n
        invariant
            world.wf(),
            -G_LIMIT <= g <= G_LIMIT,
            n == roots@.len(),
            i <= n,
            total == spec_force_pairs(world.bodies@, g as int, roots@),
            out@ + spec_pairs_from(world.bodies@, g as int, roots@, i as int) == total,
            forall|k: int| 0 <= k < out@.len() ==> force_in_range(#[trigger] out@[k].force),
        decreases n - i,
    {
        let mut j: usize = i + 1;
        proof {
            if j < n {
                assert(out@ + spec_pair_row(world.bodies@, g as int, roots@, i as int, j as int)
                    + spec_pairs_from(world.bodies@, g as int, roots@, i as int + 1) =~= total);
            } else {
                assert(spec_pair_row(world.bodies@, g as int, roots@, i as int, j as int)
                    =~= Seq::<ForcePair>::empty());
                assert(out@ + spec_pair_row(world.bodies@, g as int, roots@, i as int, j as int)
                    + spec_pairs_from(world.bodies@, g as int, roots@, i as int + 1) =~= total);
            }
        }
        while j < n
            invariant
                world.wf(),
                -G_LIMIT <= g <= G_LIMIT,
                n == roots@.len(),
                i < n,
                i + 1 <= j <= n,
                total == spec_force_pairs(world.bodies@, g as int, roots@),
                out@ + spec_pair_row(world.bodies@, g as int, roots@, i as int, j as int)
                    + spec_pairs_from(world.bodies@, g as int, roots@, i as int + 1) == total,
                forall|k: int| 0 <= k < out@.len() ==> force_in_range(#[trigger] out@[k].force),
            decreases n - j,
        {
            let a = roots[i];
            let b = roots[j];
            let ghost out_before = out@;
            let ba = world.rigid_body(a.1);
            let bb = world.rigid_body(b.1);
            if let (Some(x), Some(y)) = (ba, bb) {
                let x_movable = match x.status {
                    BodyStatus::Dynamic => true,
                    BodyStatus::Static => false,
                };
                let y_movable = match y.status {
                    BodyStatus::Dynamic => true,
                    BodyStatus::Static => false,
                };
                if x_movable && y_movable {
                    proof {
                        assert(world.bodies@[a.1 as int]->Some_0.wf());
                        assert(world.bodies@[b.1 as int]->Some_0.wf());
                    }
                    let f = grav_force(g, x.pos, y.pos, x.mass, y.mass);
                    out.push(
                        ForcePair { a_id: a.0, a_body: a.1, b_id: b.0, b_body: b.1, force: f },
                    );
                }
            }
            proof {
                assert(spec_pair_row(world.bodies@, g as int, roots@, i as int, j as int)
                    =~= spec_pair_entry(world.bodies@, g as int, roots@[i as int], roots@[j as int])
                    + spec_pair_row(world.bodies@, g as int, roots@, i as int, j as int + 1));
                assert(out@ =~= out_before + spec_pair_entry(
                    world.bodies@,
                    g as int,
                    roots@[i as int],
                    roots@[j as int],
                ));
                assert(out@ + spec_pair_row(world.bodies@, g as int, roots@, i as int, j as int + 1)
                    + spec_pairs_from(world.bodies@, g as int, roots@, i as int + 1) =~= total);
            }
            j = j + 1;
        }
        proof {
            assert(spec_pair_row(world.bodies@, g as int, roots@, i as int, j as int)
                =~= Seq::<ForcePair>::empty());
            assert(out@ + spec_pairs_from(world.bodies@, g as int, roots@, i as int + 1)
                =~= total);
        }
        i = i + 1;
    }
    proof {
        assert(spec_pairs_from(world.bodies@, g as int, roots@, i as int) =~= Seq::<ForcePair>::empty());
        assert(out@ =~= total);
    }
    out
}

/// The length of one row: one entry for every partner after `i`,
/// when every root is live and movable.
proof fn lemma_pair_row_len(
    bodies: Seq<Option<Body>>,
    g: int,
    roots: Seq<(u32, usize)>,
    i: int,
    j: int,
)
    requires
        spec_all_movable(bodies, roots),
        0 <= i < roots.len(),
        0 <= j,
    ensures
        spec_pair_row(bodies, g, roots, i, j).len() == if j <= roots.len() {
            roots.len() - j
        } else {
            0
        },
    decreases roots.len() - j,
{
    if j >= roots.len() {
    } else {
        assert(spec_pair_entry(bodies, g, roots[i], roots[j]).len() == 1);
        lemma_pair_row_len(bodies, g, roots, i, j + 1);
    }
}

/// The number of pairs drawn from `roots[i..]`, when every root is
/// live and movable.
proof fn lemma_pairs_from_len(bodies: Seq<Option<Body>>, g: int, roots: Seq<(u32, usize)>, i: int)
    requires
        spec_all_movable(bodies, roots),
        0 <= i <= roots.len(),
    ensures
        2 * spec_pairs_from(bodies, g, roots, i).len() == (roots.len() - i) * (roots.len() - i
            - 1),
    decreases roots.len() - i,
{
    let n = roots.len() as int;
    if i >= n {
        assert((n - i) * (n - i - 1) == 0) by (nonlinear_arith)
            requires
                i == n,
        {}
    } else {
        lemma_pair_row_len(bodies, g, roots, i, i + 1);
        lemma_pairs_from_len(bodies, g, roots, i + 1);
        assert(2 * (n - i - 1) + (n - i - 1) * (n - i - 2) == (n - i) * (n - i - 1))
            by (nonlinear_arith)
        {}
    }
}

/// The gravity pair count: with `N` live movable roots, the pass
/// plans exactly `N * (N - 1) / 2` force applications — every
/// unordered pair exactly once.
pub proof fn lemma_gravity_pair_count(
    bodies: Seq<Option<Body>>,
    g: int,
    roots: Seq<(u32, usize)>,
)
    requires
        spec_all_movable(bodies, roots),
    ensures
        2 * spec_force_pairs(bodies, g, roots).len() == roots.len() * (roots.len() - 1),
{
    lemma_pairs_from_len(bodies, g, roots, 0);
}

/// A body arena after adding `f` to the force accumulator of the body
/// behind `h`; unchanged if the handle is dead.
pub open spec fn spec_add_body_force(bodies: Seq<Option<Body>>, h: int, f: Vec3) -> Seq<
    Option<Body>,
> {
    match spec_lookup(bodies, h) {
        Some(b) => bodies.update(h, Some(Body { force: spec_accumulate_force(b.force, f), ..b })),
        None => bodies,
    }
}

/// The negation of a force vector.
pub open spec fn spec_neg_force(f: Vec3) -> Vec3 {
    Vec3 { x: (0 - f.x) as i64, y: (0 - f.y) as i64, z: (0 - f.z) as i64 }
}

/// A body arena after one planned application: the force added to
/// the first body, its negation to the second.
pub open spec fn spec_apply_pair_force(bodies: Seq<Option<Body>>, p: ForcePair) -> Seq<
    Option<Body>,
> {
    spec_add_body_force(
        spec_add_body_force(bodies, p.a_body as int, p.force),
        p.b_body as int,
        spec_neg_force(p.force),
    )
}

/// A body arena after the first `k` planned applications.
pub open spec fn spec_apply_prefix(
    bodies: Seq<Option<Body>>,
    pairs: Seq<ForcePair>,
    k: int,
) -> Seq<Option<Body>>
    decreases k,
{
    if k <= 0 {
        bodies
    } else {
        spec_apply_pair_force(spec_apply_prefix(bodies, pairs, k - 1), pairs[k - 1])
    }
}

/// Performs the planned applications in order: each pair's force goes
/// to its first body and the exact negation to its second.
pub fn apply_force_pairs(world: &mut World, pairs: &Vec<ForcePair>)
    requires
        old(world).wf(),
        forall|k: int| 0 <= k < pairs@.len() ==> force_in_range(#[trigger] pairs@[k].force),
    ensures
        final(world).wf(),
        final(world).bodies@ == spec_apply_prefix(
            old(world).bodies@,
            pairs@,
            pairs@.len() as int,
        ),
        final(world).joints@ == old(world).joints@,
        final(world).colliders@ == old(world).colliders@,
        final(world).gravity == old(world).gravity,
        final(world).timestep_ns == old(world).timestep_ns,
{
    let n = pairs.len();
    let mut k: usize = 0;
    while k < n
        invariant
            world.wf(),
            n == pairs@.len(),
            k <= n,
            forall|m: int| 0 <= m < pairs@.len() ==> force_in_range(#[trigger] pairs@[m].force),
            world.bodies@ == spec_apply_prefix(old(world).bodies@, pairs@, k as int),
            world.joints@ == old(world).joints@,
            world.colliders@ == old(world).colliders@,
            world.gravity == old(world).gravity,
            world.timestep_ns == old(world).timestep_ns,
        decreases n - k,
    {
        let p = pairs[k];
        let ghost before = world.bodies@;
        world.apply_force(p.a_body, p.force);
        proof {
            assert(world.bodies@ =~= spec_add_body_force(before, p.a_body as int, p.force));
        }
        let neg = p.force.neg();
        world.apply_force(p.b_body, neg);
        proof {
            assert(neg == spec_neg_force(p.force));
            assert(world.bodies@ =~= spec_apply_pair_force(before, p));
        }
        k = k + 1;
    }
}

/// Newton's third law: for any pair of bodies within the ranges the
/// world tracks, the force computed for the second body is the exact
/// negation of the force computed for the first.
pub proof fn lemma_gravity_newton(g: int, pa: Vec3, pb: Vec3, ma: int, mb: int)
    requires
        pa.in_range(),
        pb.in_range(),
        0 <= ma <= MASS_LIMIT,
        0 <= mb <= MASS_LIMIT,
        -G_LIMIT <= g <= G_LIMIT,
    ensures
        spec_grav_force(g, pb, pa, mb, ma).x == -spec_grav_force(g, pa, pb, ma, mb).x,
        spec_grav_force(g, pb, pa, mb, ma).y == -spec_grav_force(g, pa, pb, ma, mb).y,
        spec_grav_force(g, pb, pa, mb, ma).z == -spec_grav_force(g, pa, pb, ma, mb).z,
{
    let dx = pb.x - pa.x;
    let dy = pb.y - pa.y;
    let dz = pb.z - pa.z;
    let d2 = dx * dx + dy * dy + dz * dz;
    let d2r = (-dx) * (-dx) + (-dy) * (-dy) + (-dz) * (-dz);
    assert(d2r == d2 && d2 >= 0 && dx * dx <= d2 && dy * dy <= d2 && dz * dz <= d2)
        by (nonlinear_arith)
        requires
            d2 == dx * dx + dy * dy + dz * dz,
            d2r == (-dx) * (-dx) + (-dy) * (-dy) + (-dz) * (-dz),
    {}
    assert(spec_abs(g) * mb * ma == spec_abs(g) * ma * mb) by (nonlinear_arith) {}
    if d2 != 0 {
        lemma_isqrt_property(d2 as nat);
        lemma_isqrt_pos(d2 as nat);
        let len = spec_isqrt(d2 as nat) as int;
        let mag = spec_grav_mag(g, ma, mb, d2);
        assert(0 <= spec_abs(g) * ma * mb / d2) by (nonlinear_arith)
            requires
                0 <= spec_abs(g),
                0 <= ma,
                0 <= mb,
                d2 >= 1,
        {}
        assert(spec_grav_mag(g, mb, ma, d2) == mag);
        lemma_grav_comp_neg(dx, g, mag, len, d2);
        lemma_grav_comp_neg(dy, g, mag, len, d2);
        lemma_grav_comp_neg(dz, g, mag, len, d2);
    }
}

/// Negating the axis delta negates the force component, and the
/// component stays within the range where the conversion to a
/// machine integer is exact.
proof fn lemma_grav_comp_neg(d: int, g: int, mag: int, len: int, d2: int)
    requires
        len >= 1,
        0 <= mag <= FORCE_LIMIT,
        d * d <= d2,
        d2 < (len + 1) * (len + 1),
    ensures
        spec_grav_comp(-d, g, mag, len) == -spec_grav_comp(d, g, mag, len),
        -FORCE_LIMIT <= spec_grav_comp(d, g, mag, len) <= FORCE_LIMIT,
        -FORCE_LIMIT <= spec_grav_comp(-d, g, mag, len) <= FORCE_LIMIT,
{
    let a = spec_abs(d);
    assert(a <= len) by (nonlinear_arith)
        requires
            d * d <= d2,
            d2 < (len + 1) * (len + 1),
            len >= 1,
            a == spec_abs(d),
    {}
    assert(0 <= a * mag / len <= mag) by (nonlinear_arith)
        requires
            0 <= a <= len,
            len >= 1,
            0 <= mag,
    {}
    if d == 0 {
        assert(spec_abs(0int) * mag / len == 0) by (nonlinear_arith)
            requires
                len >= 1,
        {}
    } else {
        assert(spec_abs(-d) == spec_abs(d));
    }
}

} // verus!
