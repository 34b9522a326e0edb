//! Fixed-point scalars, vectors, bases and transforms.
//!
//! A scalar is an `i64` counting `SCALE` units per 1.0. Every operation
//! saturates at the `i64` range, so no arithmetic here can panic; the
//! saturation points are pinned down exactly by the `sat_i64` specification.

use vstd::prelude::*;

verus! {

/// Fixed-point units per 1.0.
pub const SCALE: i64 = 65536;

/// A scalar clamped to the representable `i64` range.
pub open spec fn sat_i64(x: int) -> i64 {
    if x > i64::MAX {
        i64::MAX
    } else if x < i64::MIN {
        i64::MIN
    } else {
        x as i64
    }
}

/// Saturating sum of two scalars.
pub open spec fn spec_sat_add(a: i64, b: i64) -> i64 {
    sat_i64(a + b)
}

/// Saturating difference of two scalars.
pub open spec fn spec_sat_sub(a: i64, b: i64) -> i64 {
    sat_i64(a - b)
}

/// Saturating fixed-point product: the mathematical product carries
/// `SCALE * SCALE` units per 1.0, so it is floor-divided back by `SCALE`.
pub open spec fn spec_fp_mul(a: i64, b: i64) -> i64 {
    sat_i64((a * b) / (SCALE as int))
}

pub fn sat_add(a: i64, b: i64) -> (r: i64)
    ensures
        r == spec_sat_add(a, b),
{
    match a.checked_add(b) {
        Some(v) => v,
        None => {
            if b > 0 {
                i64::MAX
            } else {
                i64::MIN
            }
        },
    }
}

pub fn sat_sub(a: i64, b: i64) -> (r: i64)
    ensures
        r == spec_sat_sub(a, b),
{
    match a.checked_sub(b) {
        Some(v) => v,
        None => {
            if b < 0 {
                i64::MAX
            } else {
                i64::MIN
            }
        },
    }
}

pub fn fp_mul(a: i64, b: i64) -> (r: i64)
    ensures
        r == spec_fp_mul(a, b),
{
    proof {
        assert(a * b <= i128::MAX && i128::MIN <= a * b) by (nonlinear_arith)
            requires
                i64::MIN <= a <= i64::MAX,
                i64::MIN <= b <= i64::MAX,
        ;
    }
    let p: i128 = (a as i128) * (b as i128);
    proof {
        assert((p as int) / (SCALE as int) <= i128::MAX && i128::MIN <= (p as int) / (SCALE as int))
            by (nonlinear_arith)
            requires
                i128::MIN <= p <= i128::MAX,
        ;
    }
    let q: i128 = match p.checked_div_euclid(SCALE as i128) {
        Some(v) => v,
        None => 0,
    };
    if q > i64::MAX as i128 {
        i64::MAX
    } else if q < i64::MIN as i128 {
        i64::MIN
    } else {
        q as i64
    }
}

/// Fixed-point reciprocal: `1.0 / x` for positive `x`, and 0 otherwise.
/// A non-positive operand stands for "no value" (an unset mass or an
/// auto-computed inertia component), whose reciprocal the engine owns.
pub open spec fn spec_recip(x: i64) -> i64 {
    if x <= 0 {
        0
    } else {
        (((SCALE as int) * (SCALE as int)) / (x as int)) as i64
    }
}

pub fn recip(x: i64) -> (r: i64)
    ensures
        r == spec_recip(x),
{
    if x <= 0 {
        return 0;
    }
    let one_sq: i64 = SCALE * SCALE;
    proof {
        assert(0 <= (one_sq as int) / (x as int) <= one_sq) by (nonlinear_arith)
            requires
                x >= 1,
                one_sq == 4294967296,
        ;
    }
    match one_sq.checked_div_euclid(x) {
        Some(v) => v,
        None => 0,
    }
}

/// A three-component fixed-point vector.
#[derive(Clone, Copy, Debug, PartialEq, Eq, Structural)]
pub struct Vec3 {
    pub x: i64,
    pub y: i64,
    pub z: i64,
}

pub open spec fn v3(x: i64, y: i64, z: i64) -> Vec3 {
    Vec3 { x, y, z }
}

pub open spec fn v3_zero() -> Vec3 {
    Vec3 { x: 0, y: 0, z: 0 }
}

pub open spec fn spec_v3_add(a: Vec3, b: Vec3) -> Vec3 {
    Vec3 { x: spec_sat_add(a.x, b.x), y: spec_sat_add(a.y, b.y), z: spec_sat_add(a.z, b.z) }
}

pub open spec fn spec_v3_sub(a: Vec3, b: Vec3) -> Vec3 {
    Vec3 { x: spec_sat_sub(a.x, b.x), y: spec_sat_sub(a.y, b.y), z: spec_sat_sub(a.z, b.z) }
}

/// Componentwise fixed-point scaling.
pub open spec fn spec_v3_scale(a: Vec3, s: i64) -> Vec3 {
    Vec3 { x: spec_fp_mul(a.x, s), y: spec_fp_mul(a.y, s), z: spec_fp_mul(a.z, s) }
}

/// Fixed-point cross product; each component is a saturating difference of
/// two fixed-point products.
pub open spec fn spec_v3_cross(a: Vec3, b: Vec3) -> Vec3 {
    Vec3 {
        x: spec_sat_sub(spec_fp_mul(a.y, b.z), spec_fp_mul(a.z, b.y)),
        y: spec_sat_sub(spec_fp_mul(a.z, b.x), spec_fp_mul(a.x, b.z)),
        z: spec_sat_sub(spec_fp_mul(a.x, b.y), spec_fp_mul(a.y, b.x)),
    }
}

/// Fixed-point dot product, accumulated with saturating sums.
pub open spec fn spec_v3_dot(a: Vec3, b: Vec3) -> i64 {
    spec_sat_add(spec_sat_add(spec_fp_mul(a.x, b.x), spec_fp_mul(a.y, b.y)), spec_fp_mul(a.z, b.z))
}

/// Componentwise reciprocal, as a diagonal inverse-inertia fallback.
pub open spec fn spec_v3_recip(a: Vec3) -> Vec3 {
    Vec3 { x: spec_recip(a.x), y: spec_recip(a.y), z: spec_recip(a.z) }
}

impl Vec3 {
    pub fn new(x: i64, y: i64, z: i64) -> (r: Vec3)
        ensures
            r == v3(x, y, z),
    {
        Vec3 { x, y, z }
    }

    pub fn zero() -> (r: Vec3)
        ensures
            r == v3_zero(),
    {
        Vec3 { x: 0, y: 0, z: 0 }
    }

    pub fn add(self, o: Vec3) -> (r: Vec3)
        ensures
            r == spec_v3_add(self, o),
    {
        Vec3 { x: sat_add(self.x, o.x), y: sat_add(self.y, o.y), z: sat_add(self.z, o.z) }
    }

    pub fn sub(self, o: Vec3) -> (r: Vec3)
        ensures
            r == spec_v3_sub(self, o),
    {
        Vec3 { x: sat_sub(self.x, o.x), y: sat_sub(self.y, o.y), z: sat_sub(self.z, o.z) }
    }

    pub fn scale(self, s: i64) -> (r: Vec3)
        ensures
            r == spec_v3_scale(self, s),
    {
        Vec3 { x: fp_mul(self.x, s), y: fp_mul(self.y, s), z: fp_mul(self.z, s) }
    }

    pub fn cross(self, o: Vec3) -> (r: Vec3)
        ensures
            r == spec_v3_cross(self, o),
    {
        Vec3 {
            x: sat_sub(fp_mul(self.y, o.z), fp_mul(self.z, o.y)),
            y: sat_sub(fp_mul(self.z, o.x), fp_mul(self.x, o.z)),
            z: sat_sub(fp_mul(self.x, o.y), fp_mul(self.y, o.x)),
        }
    }

    pub fn dot(self, o: Vec3) -> (r: i64)
        ensures
            r == spec_v3_dot(self, o),
    {
        sat_add(sat_add(fp_mul(self.x, o.x), fp_mul(self.y, o.y)), fp_mul(self.z, o.z))
    }

    pub fn recip_components(self) -> (r: Vec3)
        ensures
            r == spec_v3_recip(self),
    {
        Vec3 { x: recip(self.x), y: recip(self.y), z: recip(self.z) }
    }

    pub fn is_zero(self) -> (r: bool)
        ensures
            r == (self == v3_zero()),
    {
        self.x == 0 && self.y == 0 && self.z == 0
    }
}

/// A 3x3 fixed-point matrix, stored as rows; the identity has `SCALE` on the
/// diagonal.
#[derive(Clone, Copy, Debug, PartialEq, Eq, Structural)]
pub struct Basis {
    pub rx: Vec3,
    pub ry: Vec3,
    pub rz: Vec3,
}

pub open spec fn spec_basis_identity() -> Basis {
    Basis { rx: v3(SCALE, 0, 0), ry: v3(0, SCALE, 0), rz: v3(0, 0, SCALE) }
}

pub open spec fn spec_basis_from_diagonal(d: Vec3) -> Basis {
    Basis { rx: v3(d.x, 0, 0), ry: v3(0, d.y, 0), rz: v3(0, 0, d.z) }
}

/// Right-multiplication by a diagonal matrix: scales column `j` by `d[j]`.
pub open spec fn spec_basis_mul_diagonal(b: Basis, d: Vec3) -> Basis {
    Basis {
        rx: v3(spec_fp_mul(b.rx.x, d.x), spec_fp_mul(b.rx.y, d.y), spec_fp_mul(b.rx.z, d.z)),
        ry: v3(spec_fp_mul(b.ry.x, d.x), spec_fp_mul(b.ry.y, d.y), spec_fp_mul(b.ry.z, d.z)),
        rz: v3(spec_fp_mul(b.rz.x, d.x), spec_fp_mul(b.rz.y, d.y), spec_fp_mul(b.rz.z, d.z)),
    }
}

/// Matrix-vector product over rows.
pub open spec fn spec_basis_xform(b: Basis, v: Vec3) -> Vec3 {
    Vec3 { x: spec_v3_dot(b.rx, v), y: spec_v3_dot(b.ry, v), z: spec_v3_dot(b.rz, v) }
}

impl Basis {
    pub fn identity() -> (r: Basis)
        ensures
            r == spec_basis_identity(),
    {
        Basis {
            rx: Vec3 { x: SCALE, y: 0, z: 0 },
            ry: Vec3 { x: 0, y: SCALE, z: 0 },
            rz: Vec3 { x: 0, y: 0, z: SCALE },
        }
    }

    pub fn from_diagonal(d: Vec3) -> (r: Basis)
        ensures
            r == spec_basis_from_diagonal(d),
    {
        Basis {
            rx: Vec3 { x: d.x, y: 0, z: 0 },
            ry: Vec3 { x: 0, y: d.y, z: 0 },
            rz: Vec3 { x: 0, y: 0, z: d.z },
        }
    }

    pub fn mul_diagonal(self, d: Vec3) -> (r: Basis)
        ensures
            r == spec_basis_mul_diagonal(self, d),
    {
        Basis {
            rx: Vec3 { x: fp_mul(self.rx.x, d.x), y: fp_mul(self.rx.y, d.y), z: fp_mul(self.rx.z, d.z) },
            ry: Vec3 { x: fp_mul(self.ry.x, d.x), y: fp_mul(self.ry.y, d.y), z: fp_mul(self.ry.z, d.z) },
            rz: Vec3 { x: fp_mul(self.rz.x, d.x), y: fp_mul(self.rz.y, d.y), z: fp_mul(self.rz.z, d.z) },
        }
    }

    pub fn xform(self, v: Vec3) -> (r: Vec3)
        ensures
            r == spec_basis_xform(self, v),
    {
        Vec3 { x: self.rx.dot(v), y: self.ry.dot(v), z: self.rz.dot(v) }
    }
}

/// A rigid pose: rotation-and-scale basis plus a translation origin.
#[derive(Clone, Copy, Debug, PartialEq, Eq, Structural)]
pub struct Transform {
    pub basis: Basis,
    pub origin: Vec3,
}

pub open spec fn spec_transform_identity() -> Transform {
    Transform { basis: spec_basis_identity(), origin: v3_zero() }
}

/// A point mapped through the pose: `basis * p + origin`.
pub open spec fn spec_transform_xform(t: Transform, p: Vec3) -> Vec3 {
    spec_v3_add(spec_basis_xform(t.basis, p), t.origin)
}

impl Transform {
    pub fn identity() -> (r: Transform)
        ensures
            r == spec_transform_identity(),
    {
        Transform { basis: Basis::identity(), origin: Vec3::zero() }
    }

    pub fn xform(self, p: Vec3) -> (r: Vec3)
        ensures
            r == spec_transform_xform(self, p),
    {
        self.basis.xform(p).add(self.origin)
    }
}

/// Saturating fixed-point quotient `a / b` for positive `b`; a non-positive
/// divisor yields 0.
pub open spec fn spec_fp_div(a: i64, b: i64) -> i64 {
    if b <= 0 {
        0
    } else {
        sat_i64((a * SCALE) / (b as int))
    }
}

pub fn fp_div(a: i64, b: i64) -> (r: i64)
    ensures
        r == spec_fp_div(a, b),
{
    if b <= 0 {
        return 0;
    }
    proof {
        assert(a * (SCALE as int) <= i128::MAX && i128::MIN <= a * (SCALE as int))
            by (nonlinear_arith)
            requires
                i64::MIN <= a <= i64::MAX,
        ;
    }
    let p: i128 = (a as i128) * (SCALE as i128);
    proof {
        assert((p as int) / (b as int) <= i128::MAX && i128::MIN <= (p as int) / (b as int))
            by (nonlinear_arith)
            requires
                i128::MIN <= p <= i128::MAX,
                b >= 1,
        ;
    }
    let q: i128 = match p.checked_div_euclid(b as i128) {
        Some(v) => v,
        None => 0,
    };
    if q > i64::MAX as i128 {
        i64::MAX
    } else if q < i64::MIN as i128 {
        i64::MIN
    } else {
        q as i64
    }
}

/// The integer square root: the greatest `r` with `r * r <= n`.
pub open spec fn spec_isqrt(n: int) -> int
    recommends
        n >= 0,
{
    choose|r: int| 0 <= r && #[trigger] (r * r) <= n && n < (r + 1) * (r + 1)
}

pub fn isqrt_u128(n: u128) -> (r: u128)
    ensures
        r * r <= n,
        n < (r + 1) * (r + 1),
        r <= u64::MAX,
{
    let mut lo: u128 = 0;
    let mut hi: u128 = u64::MAX as u128;
    proof {
        assert((hi + 1) * (hi + 1) > u128::MAX) by (nonlinear_arith)
            requires
                hi == u64::MAX,
        ;
    }
    while lo < hi
        invariant
            lo <= hi,
            hi <= u64::MAX,
            lo * lo <= n,
            n < (hi + 1) * (hi + 1),
        decreases hi - lo,
    {
        let mid: u128 = lo + (hi - lo + 1) / 2;
        proof {
            assert(mid * mid <= u128::MAX) by (nonlinear_arith)
                requires
                    mid <= u64::MAX,
            ;
            assert(lo < mid <= hi);
        }
        if mid * mid <= n {
            lo = mid;
        } else {
            hi = mid - 1;
        }
    }
    lo
}

/// The fixed-point square root of a fixed-point quantity: since `x` counts
/// `SCALE` units, the root of `x * SCALE` counts `SCALE` units again.
/// A negative operand yields 0.
pub open spec fn spec_fp_sqrt(x: i64) -> i64 {
    if x < 0 {
        0
    } else {
        sat_i64(spec_isqrt(x * SCALE))
    }
}

pub fn fp_sqrt(x: i64) -> (r: i64)
    ensures
        r == spec_fp_sqrt(x),
{
    if x < 0 {
        return 0;
    }
    proof {
        assert(x * SCALE <= u128::MAX) by (nonlinear_arith)
            requires
                0 <= x <= i64::MAX,
                SCALE == 65536,
        ;
    }
    let n: u128 = (x as u128) * (SCALE as u128);
    let r = isqrt_u128(n);
    proof {
        assert(r * r <= n && n < (r + 1) * (r + 1));
        assert(0 <= r as int && (r as int) * (r as int) <= x * SCALE
            && x * SCALE < ((r as int) + 1) * ((r as int) + 1));
        lemma_isqrt_unique(x * SCALE, r as int);
        assert(n < 1208925819614629174706176);
        assert(r as int <= 1099511627776) by (nonlinear_arith)
            requires
                (r as int) * (r as int) <= (n as int),
                (n as int) < 1208925819614629174706176,
        ;
    }
    r as i64
}

/// Two integers that both satisfy the square-root bracketing are equal, so
/// `spec_isqrt` names the witness exactly.
proof fn lemma_isqrt_unique(n: int, r: int)
    requires
        0 <= r,
        r * r <= n,
        n < (r + 1) * (r + 1),
    ensures
        spec_isqrt(n) == r,
{
    assert(exists|q: int| 0 <= q && #[trigger] (q * q) <= n && n < (q + 1) * (q + 1)) by {
        assert(0 <= r && r * r <= n && n < (r + 1) * (r + 1));
    }
    let q = spec_isqrt(n);
    assert(0 <= q && q * q <= n && n < (q + 1) * (q + 1));
    if q < r {
        assert((q + 1) * (q + 1) <= r * r) by (nonlinear_arith)
            requires
                0 <= q,
                q < r,
        ;
    }
    if r < q {
        assert((r + 1) * (r + 1) <= q * q) by (nonlinear_arith)
            requires
                0 <= r,
                r < q,
        ;
    }
}

/// A diagnostic counter bumped once per recoverable fault, saturating
/// instead of wrapping.
pub open spec fn spec_bump(d: u64) -> u64 {
    if d == u64::MAX {
        d
    } else {
        (d + 1) as u64
    }
}

pub fn bump(d: u64) -> (r: u64)
    ensures
        r == spec_bump(d),
{
    if d == u64::MAX {
        d
    } else {
        d + 1
    }
}

} // verus!
