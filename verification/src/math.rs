//! Fixed-point vector math.
//!
//! All quantities are integers in milli units: the value `1000` stands
//! for one world unit.  Angles are in microradians.  Every operation is
//! specified exactly, including the truncation its integer division
//! performs.

use vstd::prelude::*;

verus! {

/// Largest coordinate magnitude the world tracks, in milli units.
pub const VEC_LIMIT: i64 = 2_000_000_000_000;

/// Largest body mass the world tracks, in milli units.
pub const MASS_LIMIT: i64 = 1_000_000_000_000;

/// Largest force component magnitude the world tracks, in milli units.
pub const FORCE_LIMIT: i64 = 1_000_000_000_000_000_000;

/// pi, in milli units.
pub const PI_MILLI: i64 = 3142;

/// pi, in microradians.
pub const PI_MICRO: i64 = 3_141_593;

/// 2 * pi, in microradians.
pub const TWO_PI_MICRO: i64 = 6_283_186;

/// pi / 2, in microradians.
pub const HALF_PI_MICRO: i64 = 1_570_796;

/// A three-component vector of milli-unit fixed-point coordinates.
#[derive(Clone, Copy, Debug, PartialEq, Eq, Structural)]
pub struct Vec3 {
    pub x: i64,
    pub y: i64,
    pub z: i64,
}

/// Clamping of an unbounded integer to a symmetric range.
pub open spec fn spec_clamp(v: int, limit: int) -> int {
    if v > limit {
        limit
    } else if v < -limit {
        -limit
    } else {
        v
    }
}

/// Truncating division, the semantics of Rust's `/` on integers:
/// the quotient of the magnitudes, with the dividend's sign.
pub open spec fn spec_div_trunc(a: int, b: int) -> int
    recommends
        b > 0,
{
    if a >= 0 {
        a / b
    } else {
        -((-a) / b)
    }
}

/// The integer square root: the largest `r` with `r * r <= n`.
pub open spec fn spec_isqrt(n: nat) -> nat
    decreases n,
{
    if n == 0 {
        0
    } else {
        let p = spec_isqrt((n - 1) as nat);
        if (p + 1) * (p + 1) <= n {
            p + 1
        } else {
            p
        }
    }
}

/// The defining property of `spec_isqrt`.
pub proof fn lemma_isqrt_property(n: nat)
    ensures
        spec_isqrt(n) * spec_isqrt(n) <= n,
        n < (spec_isqrt(n) + 1) * (spec_isqrt(n) + 1),
    decreases n,
{
    let s = spec_isqrt(n);
    if n == 0 {
        assert(s == 0);
        assert(s * s <= n && n < (s + 1) * (s + 1)) by (nonlinear_arith)
            requires
                s == 0,
                n == 0,
        {}
    } else {
        lemma_isqrt_property((n - 1) as nat);
        let p = spec_isqrt((n - 1) as nat);
        if (p + 1) * (p + 1) <= n {
            assert(s == p + 1);
            assert(s * s <= n && n < (s + 1) * (s + 1)) by (nonlinear_arith)
                requires
                    s == p + 1,
                    (p + 1) * (p + 1) <= n,
                    n <= (p + 1) * (p + 1) + 1,
                    p >= 0,
            {}
        } else {
            assert(s == p);
            assert(s * s <= n && n < (s + 1) * (s + 1)) by (nonlinear_arith)
                requires
                    s == p,
                    p * p <= n - 1,
                    n < (p + 1) * (p + 1) + 1,
                    !((p + 1) * (p + 1) <= n),
            {}
        }
    }
}

/// The integer square root of a positive number is positive.
pub proof fn lemma_isqrt_pos(n: nat)
    requires
        n >= 1,
    ensures
        spec_isqrt(n) >= 1,
{
    lemma_isqrt_property(n);
    let s = spec_isqrt(n);
    assert(s >= 1) by (nonlinear_arith)
        requires
            n < (s + 1) * (s + 1),
            n >= 1,
            s >= 0,
    {}
}

/// Any `r` with `r * r <= n < (r + 1) * (r + 1)` is `spec_isqrt(n)`.
pub proof fn lemma_isqrt_unique(n: nat, r: nat)
    requires
        r * r <= n,
        n < (r + 1) * (r + 1),
    ensures
        r == spec_isqrt(n),
{
    lemma_isqrt_property(n);
    let s = spec_isqrt(n);
    if r < s {
        assert(false) by (nonlinear_arith)
            requires
                r < s,
                s * s <= n,
                n < (r + 1) * (r + 1),
            {}
    }
    if s < r {
        assert(false) by (nonlinear_arith)
            requires
                s < r,
                r * r <= n,
                n < (s + 1) * (s + 1),
            {}
    }
}

/// Clamps `v` to `[-limit, limit]`.
pub fn clamp_i128(v: i128, limit: i64) -> (r: i64)
    requires
        limit > 0,
    ensures
        r == spec_clamp(v as int, limit as int),
{
    if v > limit as i128 {
        limit
    } else if v < -(limit as i128) {
        -limit
    } else {
        v as i64
    }
}

/// Truncating division on `i128`, matching `spec_div_trunc`.
pub fn div_trunc_i128(a: i128, b: i128) -> (r: i128)
    requires
        b > 0,
        a > i128::MIN,
    ensures
        r == spec_div_trunc(a as int, b as int),
{
    if a >= 0 {
        a / b
    } else {
        -((-a) / b)
    }
}

/// The integer square root of a `u128`.
pub fn isqrt_u128(n: u128) -> (r: u64)
    ensures
        r == spec_isqrt(n as nat),
        r * r <= n,
        n < (r + 1) * (r + 1),
{
    let mut lo: u128 = 0;
    let mut hi: u128 = 0x1_0000_0000_0000_0000;
    assert((hi * hi) > n as int) by (nonlinear_arith)
        requires
            hi == 0x1_0000_0000_0000_0000,
            n <= u128::MAX,
        {}
    while lo + 1 < hi
        invariant
            lo < hi,
            hi <= 0x1_0000_0000_0000_0000,
            lo * lo <= n,
            n < hi * hi,
        decreases hi - lo,
    {
        let mid: u128 = lo + (hi - lo) / 2;
        assert(mid * mid <= u128::MAX) by (nonlinear_arith)
            requires
                mid < 0x1_0000_0000_0000_0000,
            {}
        if mid * mid <= n {
            lo = mid;
        } else {
            hi = mid;
        }
    }
    proof {
        lemma_isqrt_unique(n as nat, lo as nat);
    }
    lo as u64
}

/// `|a * b| <= la * lb` whenever `|a| <= la` and `|b| <= lb`.
pub proof fn lemma_abs_mul_le(a: int, b: int, la: int, lb: int)
    requires
        -la <= a <= la,
        -lb <= b <= lb,
        0 <= la,
        0 <= lb,
    ensures
        -(la * lb) <= a * b <= la * lb,
{
    assert(-(la * lb) <= a * b <= la * lb) by (nonlinear_arith)
        requires
            -la <= a <= la,
            -lb <= b <= lb,
            0 <= la,
            0 <= lb,
    {}
}

/// Truncating division never grows the magnitude of the dividend.
pub proof fn lemma_div_trunc_abs_le(a: int, b: int, la: int)
    requires
        b >= 1,
        -la <= a <= la,
        0 <= la,
    ensures
        -la <= spec_div_trunc(a, b) <= la,
{
    if a >= 0 {
        assert(0 <= a / b <= a) by (nonlinear_arith)
            requires
                a >= 0,
                b >= 1,
        {}
    } else {
        assert(0 <= (-a) / b <= -a) by (nonlinear_arith)
            requires
                -a >= 0,
                b >= 1,
        {}
    }
}

/// The sine of an angle in `[0, pi]` microradians, in milli units,
/// by the rational approximation `16 a (pi - a) / (5 pi^2 - 4 a (pi - a))`,
/// rounded to the nearest milli unit.
pub open spec fn spec_sin_half(a: int) -> int
    recommends
        0 <= a <= PI_MICRO,
{
    let num = 16 * a * (PI_MICRO - a) * 1000;
    let den = 5 * PI_MICRO * PI_MICRO - 4 * (a * (PI_MICRO - a));
    (num + den / 2) / den
}

/// The sine of an angle in `[0, 2 pi]` microradians, in milli units.
pub open spec fn spec_sin_micro(a: int) -> int
    recommends
        0 <= a <= TWO_PI_MICRO,
{
    if a <= PI_MICRO {
        spec_sin_half(a)
    } else {
        -spec_sin_half(a - PI_MICRO)
    }
}

/// The cosine of an angle in `[0, 2 pi)` microradians, in milli
/// units: the sine a quarter turn later.
pub open spec fn spec_cos_micro(a: int) -> int
    recommends
        0 <= a < TWO_PI_MICRO,
{
    spec_sin_micro((a + HALF_PI_MICRO) % (TWO_PI_MICRO as int))
}

/// The sine on `[0, pi]`; matches `spec_sin_half` and stays within
/// one milli unit scale.
fn sin_half(a: i64) -> (r: i64)
    requires
        0 <= a <= PI_MICRO,
    ensures
        r == spec_sin_half(a as int),
        0 <= r <= 1000,
{
    proof {
        lemma_abs_mul_le(a as int, PI_MICRO - a as int, PI_MICRO as int, PI_MICRO as int);
    }
    let t: i128 = (a as i128) * ((PI_MICRO - a) as i128);
    proof {
        assert(0 <= t && 4 * t <= (PI_MICRO as int) * (PI_MICRO as int)) by (nonlinear_arith)
            requires
                t == a * (PI_MICRO - a),
                0 <= a <= PI_MICRO,
        {}
    }
    let num: i128 = 16 * t * 1000;
    let den: i128 = 5 * (PI_MICRO as i128) * (PI_MICRO as i128) - 4 * t;
    proof {
        assert(num == 16 * (a as int) * (PI_MICRO - a as int) * 1000) by (nonlinear_arith)
            requires
                num == 16 * t * 1000,
                t == a * (PI_MICRO - a),
        {}
        assert(den > 0 && num >= 0 && num <= 1000 * den && ((num as int) + (den as int) / 2) / (
        den as int) <= 1000 && 0 <= ((num as int) + (den as int) / 2) / (den as int))
            by (nonlinear_arith)
            requires
                num == 16 * t * 1000,
                den == 5 * (PI_MICRO as int) * (PI_MICRO as int) - 4 * t,
                0 <= t,
                4 * t <= (PI_MICRO as int) * (PI_MICRO as int),
                PI_MICRO == 3_141_593,
        {}
    }
    ((num + den / 2) / den) as i64
}

/// The sine of an angle in `[0, 2 pi]`; matches `spec_sin_micro`.
pub fn sin_micro(a: i64) -> (r: i64)
    requires
        0 <= a <= TWO_PI_MICRO,
    ensures
        r == spec_sin_micro(a as int),
        -1000 <= r <= 1000,
{
    if a <= PI_MICRO {
        sin_half(a)
    } else {
        -sin_half(a - PI_MICRO)
    }
}

/// The cosine of an angle in `[0, 2 pi)`; matches `spec_cos_micro`.
pub fn cos_micro(a: i64) -> (r: i64)
    requires
        0 <= a < TWO_PI_MICRO,
    ensures
        r == spec_cos_micro(a as int),
        -1000 <= r <= 1000,
{
    let b = a + HALF_PI_MICRO;
    let w: i64 = if b >= TWO_PI_MICRO {
        b - TWO_PI_MICRO
    } else {
        b
    };
    proof {
        if b >= TWO_PI_MICRO {
            vstd::arithmetic::div_mod::lemma_fundamental_div_mod_converse(
                b as int,
                TWO_PI_MICRO as int,
                1,
                b - TWO_PI_MICRO,
            );
        } else {
            vstd::arithmetic::div_mod::lemma_fundamental_div_mod_converse(
                b as int,
                TWO_PI_MICRO as int,
                0,
                b as int,
            );
        }
    }
    sin_micro(w)
}

/// The angle congruent to `a` in `[0, 2 pi)` microradians: the
/// Euclidean remainder of `a` by one turn.
pub fn wrap_angle(a: i64) -> (r: i64)
    requires
        -4_000_000_000_000 <= a <= 4_000_000_000_000,
    ensures
        r == (a as int) % (TWO_PI_MICRO as int),
        0 <= r < TWO_PI_MICRO,
{
    if a >= 0 {
        let q = a / TWO_PI_MICRO;
        let m = a - q * TWO_PI_MICRO;
        proof {
            assert(0 <= a - ((a as int) / (TWO_PI_MICRO as int)) * TWO_PI_MICRO < TWO_PI_MICRO)
                by (nonlinear_arith)
                requires
                    a >= 0,
                    TWO_PI_MICRO == 6_283_186,
            {}
            vstd::arithmetic::div_mod::lemma_fundamental_div_mod_converse(
                a as int,
                TWO_PI_MICRO as int,
                q as int,
                m as int,
            );
        }
        m
    } else {
        let n = -a;
        let q = n / TWO_PI_MICRO;
        let k = n - q * TWO_PI_MICRO;
        proof {
            assert(0 <= n - ((n as int) / (TWO_PI_MICRO as int)) * TWO_PI_MICRO < TWO_PI_MICRO)
                by (nonlinear_arith)
                requires
                    n >= 0,
                    TWO_PI_MICRO == 6_283_186,
            {}
        }
        if k == 0 {
            proof {
                vstd::arithmetic::div_mod::lemma_fundamental_div_mod_converse(
                    a as int,
                    TWO_PI_MICRO as int,
                    -(q as int),
                    0,
                );
            }
            0
        } else {
            proof {
                vstd::arithmetic::div_mod::lemma_fundamental_div_mod_converse(
                    a as int,
                    TWO_PI_MICRO as int,
                    -(q as int) - 1,
                    TWO_PI_MICRO - k as int,
                );
            }
            TWO_PI_MICRO - k
        }
    }
}

impl Vec3 {
    /// All coordinates within the range the world tracks.
    pub open spec fn in_range(self) -> bool {
        &&& -VEC_LIMIT <= self.x <= VEC_LIMIT
        &&& -VEC_LIMIT <= self.y <= VEC_LIMIT
        &&& -VEC_LIMIT <= self.z <= VEC_LIMIT
    }

    /// The squared length, as an unbounded integer.
    pub open spec fn spec_len_sq(self) -> int {
        self.x * self.x + self.y * self.y + self.z * self.z
    }

    /// The zero vector.
    pub fn new() -> (r: Vec3)
        ensures
            r == (Vec3 { x: 0, y: 0, z: 0 }),
    {
        Vec3 { x: 0, y: 0, z: 0 }
    }

    /// A vector from its three coordinates.
    pub fn xyz(x: i64, y: i64, z: i64) -> (r: Vec3)
        ensures
            r == (Vec3 { x: x, y: y, z: z }),
    {
        Vec3 { x: x, y: y, z: z }
    }

    /// The vector that, added to this vector, gives `v`.
    pub fn to(&self, v: Vec3) -> (r: Vec3)
        requires
            self.in_range(),
            v.in_range(),
        ensures
            r.x == v.x - self.x,
            r.y == v.y - self.y,
            r.z == v.z - self.z,
    {
        Vec3 { x: v.x - self.x, y: v.y - self.y, z: v.z - self.z }
    }

    /// Componentwise sum.
    pub fn add(self, o: Vec3) -> (r: Vec3)
        requires
            self.in_range(),
            o.in_range(),
        ensures
            r.x == self.x + o.x,
            r.y == self.y + o.y,
            r.z == self.z + o.z,
    {
        Vec3 { x: self.x + o.x, y: self.y + o.y, z: self.z + o.z }
    }

    /// Componentwise difference.
    pub fn sub(self, o: Vec3) -> (r: Vec3)
        requires
            self.in_range(),
            o.in_range(),
        ensures
            r.x == self.x - o.x,
            r.y == self.y - o.y,
            r.z == self.z - o.z,
    {
        Vec3 { x: self.x - o.x, y: self.y - o.y, z: self.z - o.z }
    }

    /// Componentwise negation.
    pub fn neg(self) -> (r: Vec3)
        requires
            self.x > i64::MIN,
            self.y > i64::MIN,
            self.z > i64::MIN,
        ensures
            r.x == -self.x,
            r.y == -self.y,
            r.z == -self.z,
    {
        Vec3 { x: -self.x, y: -self.y, z: -self.z }
    }

    /// The squared length of this vector, in milli squared units.
    pub fn len_sq(&self) -> (r: i128)
        requires
            self.in_range(),
        ensures
            r == self.spec_len_sq(),
    {
        let x = self.x as i128;
        let y = self.y as i128;
        let z = self.z as i128;
        proof {
            assert(0 <= x * x <= (VEC_LIMIT as int) * (VEC_LIMIT as int) && 0 <= y * y <= (
            VEC_LIMIT as int) * (VEC_LIMIT as int) && 0 <= z * z <= (VEC_LIMIT as int) * (
            VEC_LIMIT as int)) by (nonlinear_arith)
                requires
                    -VEC_LIMIT <= x <= VEC_LIMIT,
                    -VEC_LIMIT <= y <= VEC_LIMIT,
                    -VEC_LIMIT <= z <= VEC_LIMIT,
                {}
        }
        x * x + y * y + z * z
    }

    /// The length of this vector, rounded down, in milli units.
    pub fn len(&self) -> (r: i64)
        requires
            self.in_range(),
        ensures
            r == spec_isqrt(self.spec_len_sq() as nat),
            r >= 0,
    {
        let sq = self.len_sq();
        proof {
            assert(0 <= sq <= 3 * (VEC_LIMIT as int) * (VEC_LIMIT as int)) by (nonlinear_arith)
                requires
                    sq == self.x * self.x + self.y * self.y + self.z * self.z,
                    -VEC_LIMIT <= self.x <= VEC_LIMIT,
                    -VEC_LIMIT <= self.y <= VEC_LIMIT,
                    -VEC_LIMIT <= self.z <= VEC_LIMIT,
                {}
        }
        let r = isqrt_u128(sq as u128);
        proof {
            assert(r < 4_000_000_000_000) by (nonlinear_arith)
                requires
                    r * r <= sq,
                    sq <= 3 * (VEC_LIMIT as int) * (VEC_LIMIT as int),
                    VEC_LIMIT == 2_000_000_000_000,
                    r >= 0,
                {}
        }
        r as i64
    }
}

} // verus!
