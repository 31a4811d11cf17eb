//! Integer vectors on the world lattice, cross products and fixed-point
//! normalisation.
use vstd::prelude::*;

verus! {

/// Lattice steps in one world unit.
pub const UNITS_PER_WORLD: i64 = 1000;

/// Largest coordinate magnitude a mesh position may have.
pub const COORD_LIMIT: i64 = 1_000_000;

/// Length of a unit normal in fixed point.
pub const NORMAL_SCALE: i64 = 1000;

/// A vector of lattice coordinates.
#[derive(Clone, Copy, PartialEq, Eq, Structural, Debug)]
pub struct Vec3 {
    pub x: i64,
    pub y: i64,
    pub z: i64,
}

pub open spec fn vec3(x: int, y: int, z: int) -> Vec3 {
    Vec3 { x: x as i64, y: y as i64, z: z as i64 }
}

pub open spec fn abs(a: int) -> int {
    if a < 0 { -a } else { a }
}

pub open spec fn bounded_by(v: Vec3, limit: int) -> bool {
    abs(v.x as int) <= limit && abs(v.y as int) <= limit && abs(v.z as int) <= limit
}

/// A position that a mesh may hold.
pub open spec fn in_bounds(v: Vec3) -> bool {
    bounded_by(v, COORD_LIMIT as int)
}

pub open spec fn vadd(a: Vec3, b: Vec3) -> Vec3 {
    vec3(a.x + b.x, a.y + b.y, a.z + b.z)
}

pub open spec fn vsub(a: Vec3, b: Vec3) -> Vec3 {
    vec3(a.x - b.x, a.y - b.y, a.z - b.z)
}

pub open spec fn vneg(a: Vec3) -> Vec3 {
    vec3(-a.x, -a.y, -a.z)
}

pub open spec fn cross(a: Vec3, b: Vec3) -> Vec3 {
    vec3(
        a.y * b.z - a.z * b.y,
        a.z * b.x - a.x * b.z,
        a.x * b.y - a.y * b.x,
    )
}

pub open spec fn norm_sq(v: Vec3) -> int {
    v.x * v.x + v.y * v.y + v.z * v.z
}

pub open spec fn is_floor_sqrt(n: int, r: int) -> bool {
    0 <= r && r * r <= n && n < (r + 1) * (r + 1)
}

/// The integer square root of `n`, rounded down.
pub open spec fn floor_sqrt(n: int) -> int {
    choose|r: int| is_floor_sqrt(n, r)
}

/// `c * NORMAL_SCALE / len`, rounded toward zero.
pub open spec fn scale_component(c: int, len: int) -> int {
    if c >= 0 {
        c * NORMAL_SCALE / len
    } else {
        -((-c) * NORMAL_SCALE / len)
    }
}

/// `v` scaled to length `NORMAL_SCALE` (each component rounded toward
/// zero); the zero vector stays zero.
pub open spec fn unit_normal(v: Vec3) -> Vec3 {
    let len = floor_sqrt(norm_sq(v));
    if len == 0 {
        vec3(0, 0, 0)
    } else {
        vec3(scale_component(v.x as int, len), scale_component(v.y as int, len),
            scale_component(v.z as int, len))
    }
}

pub proof fn lemma_floor_sqrt_unique(n: int, r: int, s: int)
    requires
        is_floor_sqrt(n, r),
        is_floor_sqrt(n, s),
    ensures
        r == s,
{
    if r < s {
        assert((r + 1) * (r + 1) <= s * s) by (nonlinear_arith)
            requires
                0 <= r < s,
        ;
    } else if s < r {
        assert((s + 1) * (s + 1) <= r * r) by (nonlinear_arith)
            requires
                0 <= s < r,
        ;
    }
}

pub proof fn lemma_floor_sqrt_is(n: int, r: int)
    requires
        is_floor_sqrt(n, r),
    ensures
        floor_sqrt(n) == r,
{
    let s = floor_sqrt(n);
    assert(is_floor_sqrt(n, s));
    lemma_floor_sqrt_unique(n, r, s);
}

/// A vector with one nonzero component normalises to the unit vector along
/// that axis.
pub proof fn lemma_unit_normal_axis(v: Vec3)
    requires
        (v.y == 0 && v.z == 0) || (v.x == 0 && v.z == 0) || (v.x == 0 && v.y == 0),
    ensures
        unit_normal(v) == vec3(sign_scale(v.x as int), sign_scale(v.y as int), sign_scale(v.z as int)),
{
    let a = abs(v.x as int) + abs(v.y as int) + abs(v.z as int);
    assert(norm_sq(v) == a * a) by (nonlinear_arith)
        requires
            (v.y == 0 && v.z == 0) || (v.x == 0 && v.z == 0) || (v.x == 0 && v.y == 0),
            a == abs(v.x as int) + abs(v.y as int) + abs(v.z as int),
    ;
    assert(is_floor_sqrt(a * a, a)) by (nonlinear_arith)
        requires
            a >= 0,
    ;
    lemma_floor_sqrt_is(norm_sq(v), a);
    if a != 0 {
        lemma_scale_axis(v.x as int, a);
        lemma_scale_axis(v.y as int, a);
        lemma_scale_axis(v.z as int, a);
    }
}

/// Swapping the factors of a cross product flips the unit normal.
pub proof fn lemma_unit_normal_swap(a: Vec3, b: Vec3)
    requires
        bounded_by(a, 2 * COORD_LIMIT),
        bounded_by(b, 2 * COORD_LIMIT),
    ensures
        unit_normal(cross(b, a)) == vneg(unit_normal(cross(a, b))),
{
    lemma_product_bound(a.y as int, b.z as int);
    lemma_product_bound(a.z as int, b.y as int);
    lemma_product_bound(a.z as int, b.x as int);
    lemma_product_bound(a.x as int, b.z as int);
    lemma_product_bound(a.x as int, b.y as int);
    lemma_product_bound(a.y as int, b.x as int);
    let v = cross(a, b);
    let w = cross(b, a);
    assert(w == vneg(v));
    assert(norm_sq(w) == norm_sq(v)) by (nonlinear_arith)
        requires
            w.x == -v.x,
            w.y == -v.y,
            w.z == -v.z,
    ;
    let len = floor_sqrt(norm_sq(v));
    assert(floor_sqrt(norm_sq(w)) == len);
    if len != 0 {
        lemma_scale_negate(v.x as int, len);
        lemma_scale_negate(v.y as int, len);
        lemma_scale_negate(v.z as int, len);
    }
}

proof fn lemma_scale_negate(c: int, len: int)
    requires
        len != 0,
    ensures
        scale_component(-c, len) == -scale_component(c, len),
        abs(scale_component(c, len)) <= abs(c) * 1000,
{
    let m = abs(c) * 1000;
    assert(abs(m / len) <= m) by (nonlinear_arith)
        requires
            len != 0,
            m >= 0,
    ;
    if c == 0 {
        assert(0int / len == 0) by (nonlinear_arith)
            requires
                len != 0,
        ;
    }
}

/// `NORMAL_SCALE` with the sign of `c`, or zero.
pub open spec fn sign_scale(c: int) -> int {
    if c > 0 {
        NORMAL_SCALE as int
    } else if c < 0 {
        -NORMAL_SCALE
    } else {
        0
    }
}

proof fn lemma_scale_axis(c: int, a: int)
    requires
        a > 0,
        c == 0 || c == a || c == -a,
    ensures
        scale_component(c, a) == sign_scale(c),
{
    if c == a {
        assert(a * 1000 / a == 1000) by (nonlinear_arith)
            requires
                a > 0,
        ;
    } else if c == -a {
        assert(a * 1000 / a == 1000) by (nonlinear_arith)
            requires
                a > 0,
        ;
    }
}


/// Largest magnitude of a component of a cross product of two edges.
pub const CROSS_LIMIT: i64 = 8_000_000_000_000;

impl Vec3 {
    pub fn new(x: i64, y: i64, z: i64) -> (r: Vec3)
        ensures
            r == (Vec3 { x, y, z }),
    {
        Vec3 { x, y, z }
    }

    pub fn zero() -> (r: Vec3)
        ensures
            r == vec3(0, 0, 0),
    {
        Vec3 { x: 0, y: 0, z: 0 }
    }

    pub fn plus(self, o: Vec3) -> (r: Vec3)
        requires
            bounded_by(self, 4 * COORD_LIMIT),
            bounded_by(o, 4 * COORD_LIMIT),
        ensures
            r == vadd(self, o),
    {
        Vec3 { x: self.x + o.x, y: self.y + o.y, z: self.z + o.z }
    }

    pub fn minus(self, o: Vec3) -> (r: Vec3)
        requires
            bounded_by(self, 4 * COORD_LIMIT),
            bounded_by(o, 4 * COORD_LIMIT),
        ensures
            r == vsub(self, o),
    {
        Vec3 { x: self.x - o.x, y: self.y - o.y, z: self.z - o.z }
    }

    pub fn negated(self) -> (r: Vec3)
        requires
            bounded_by(self, 4 * COORD_LIMIT),
        ensures
            r == vneg(self),
    {
        Vec3 { x: -self.x, y: -self.y, z: -self.z }
    }

    pub fn cross(self, o: Vec3) -> (r: Vec3)
        requires
            bounded_by(self, 2 * COORD_LIMIT),
            bounded_by(o, 2 * COORD_LIMIT),
        ensures
            r == cross(self, o),
            bounded_by(r, CROSS_LIMIT as int),
    {
        proof {
            lemma_product_bound(self.y as int, o.z as int);
            lemma_product_bound(self.z as int, o.y as int);
            lemma_product_bound(self.z as int, o.x as int);
            lemma_product_bound(self.x as int, o.z as int);
            lemma_product_bound(self.x as int, o.y as int);
            lemma_product_bound(self.y as int, o.x as int);
        }
        Vec3 {
            x: self.y * o.z - self.z * o.y,
            y: self.z * o.x - self.x * o.z,
            z: self.x * o.y - self.y * o.x,
        }
    }
}

proof fn lemma_product_bound(a: int, b: int)
    requires
        abs(a) <= 2 * COORD_LIMIT,
        abs(b) <= 2 * COORD_LIMIT,
    ensures
        abs(a * b) <= 4_000_000_000_000,
{
    assert(abs(a * b) <= 4_000_000_000_000) by (nonlinear_arith)
        requires
            abs(a) <= 2_000_000,
            abs(b) <= 2_000_000,
    ;
}

/// Largest value whose square root `floor_sqrt_u128` can take.
pub const SQRT_INPUT_LIMIT: u128 = 200_000_000_000_000_000_000_000_000;

/// The integer square root of `n`, by bisection.
pub fn floor_sqrt_u128(n: u128) -> (r: u64)
    requires
        n <= SQRT_INPUT_LIMIT,
    ensures
        is_floor_sqrt(n as int, r as int),
        r as int == floor_sqrt(n as int),
{
    let mut lo: u64 = 0;
    let mut hi: u64 = 17_592_186_044_416;
    assert(hi as int * hi as int > n) by (nonlinear_arith)
        requires
            hi == 17_592_186_044_416u64,
            n <= SQRT_INPUT_LIMIT,
    ;
    while hi - lo > 1
        invariant
            lo < hi <= 17_592_186_044_416,
            lo as int * lo as int <= n,
            n < hi as int * hi as int,
        decreases hi - lo,
    {
        let mid: u64 = lo + (hi - lo) / 2;
        assert(mid as int * mid as int <= 17_592_186_044_416 * 17_592_186_044_416) by (nonlinear_arith)
            requires
                mid <= 17_592_186_044_416u64,
        ;
        let sq: u128 = (mid as u128) * (mid as u128);
        if sq <= n {
            lo = mid;
        } else {
            hi = mid;
        }
    }
    proof {
        lemma_floor_sqrt_is(n as int, lo as int);
    }
    lo
}

fn scale_component_exec(c: i64, len: u64) -> (r: i64)
    requires
        abs(c as int) <= CROSS_LIMIT,
        abs(c as int) <= len,
        len > 0,
    ensures
        r as int == scale_component(c as int, len as int),
        abs(r as int) <= NORMAL_SCALE,
{
    let m: u64 = if c >= 0 { c as u64 } else { (-c) as u64 };
    assert(m as int * 1000 <= 8_000_000_000_000_000) by (nonlinear_arith)
        requires
            m <= 8_000_000_000_000u64,
    ;
    let q: u64 = m * 1000 / len;
    assert(q <= m * 1000 && q <= 1000) by (nonlinear_arith)
        requires
            len > 0,
            m <= len,
            q == m * 1000 / len as int,
    ;
    if c >= 0 {
        q as i64
    } else {
        -(q as i64)
    }
}

/// `c / d`, rounded toward zero.
pub open spec fn div_toward_zero(c: int, d: int) -> int {
    if c >= 0 {
        c / d
    } else {
        -((-c) / d)
    }
}

/// Normalises `v` to length `NORMAL_SCALE`, rounding each component toward
/// zero; the zero vector stays zero.
pub fn normalized(v: Vec3) -> (r: Vec3)
    requires
        bounded_by(v, CROSS_LIMIT as int),
    ensures
        r == unit_normal(v),
        bounded_by(r, NORMAL_SCALE as int),
{
    let ax: u128 = if v.x >= 0 { v.x as u128 } else { (-v.x) as u128 };
    let ay: u128 = if v.y >= 0 { v.y as u128 } else { (-v.y) as u128 };
    let az: u128 = if v.z >= 0 { v.z as u128 } else { (-v.z) as u128 };
    assert(ax * ax + ay * ay + az * az <= SQRT_INPUT_LIMIT) by (nonlinear_arith)
        requires
            ax <= 8_000_000_000_000u128,
            ay <= 8_000_000_000_000u128,
            az <= 8_000_000_000_000u128,
    ;
    assert(ax * ax + ay * ay + az * az == norm_sq(v)) by (nonlinear_arith)
        requires
            ax == abs(v.x as int),
            ay == abs(v.y as int),
            az == abs(v.z as int),
    ;
    let len = floor_sqrt_u128(ax * ax + ay * ay + az * az);
    assert(ax <= len && ay <= len && az <= len) by (nonlinear_arith)
        requires
            ax * ax + ay * ay + az * az < (len + 1) * (len + 1),
            len >= 0,
    ;
    if len == 0 {
        Vec3 { x: 0, y: 0, z: 0 }
    } else {
        Vec3 {
            x: scale_component_exec(v.x, len),
            y: scale_component_exec(v.y, len),
            z: scale_component_exec(v.z, len),
        }
    }
}

} // verus!
