//! Fixed-point vectors and the facing of a character.

use vstd::prelude::*;
use crate::fixed::{ceil_sqrt, ceil_sqrt_spec, clamp_spec, clamp_unit, is_ceil_sqrt, quot, quot_spec, UNIT};

verus! {

/// A vector of three fixed-point components.
#[derive(Clone, Copy, Debug, PartialEq, Eq, Structural)]
pub struct Vec3 {
    pub x: i64,
    pub y: i64,
    pub z: i64,
}

/// The yaw of a character, held as the cosine and sine of its angle.
#[derive(Clone, Copy, Debug, PartialEq, Eq, Structural)]
pub struct Facing {
    pub cos: i64,
    pub sin: i64,
}

impl Vec3 {
    /// The vector with the three components given.
    pub fn new(x: i64, y: i64, z: i64) -> (v: Vec3)
        ensures
            v == (Vec3 { x, y, z }),
    {
        Vec3 { x, y, z }
    }

    /// The vector that stands for "not moving".
    pub open spec fn zero_spec() -> Vec3 {
        Vec3 { x: 0, y: 0, z: 0 }
    }

    /// The vector that stands for "not moving".
    pub fn zero() -> (v: Vec3)
        ensures
            v == Vec3::zero_spec(),
    {
        Vec3 { x: 0, y: 0, z: 0 }
    }

    /// Every component lies in `[-UNIT, UNIT]`.
    pub open spec fn within_axes(self) -> bool {
        &&& -UNIT <= self.x <= UNIT
        &&& -UNIT <= self.y <= UNIT
        &&& -UNIT <= self.z <= UNIT
    }

    /// The squared length, counted in squares of a thousandth.
    pub open spec fn norm_squared(self) -> int {
        self.x * self.x + self.y * self.y + self.z * self.z
    }

    /// The length is at most one.
    pub open spec fn within_unit_length(self) -> bool {
        self.norm_squared() <= UNIT * UNIT
    }

    /// The component-wise sum of two vectors, each component then clamped
    /// into `[-UNIT, UNIT]`.
    pub open spec fn add_clamped_spec(self, other: Vec3) -> Vec3 {
        Vec3 {
            x: clamp_spec(self.x + other.x, -UNIT as int, UNIT as int) as i64,
            y: clamp_spec(self.y + other.y, -UNIT as int, UNIT as int) as i64,
            z: clamp_spec(self.z + other.z, -UNIT as int, UNIT as int) as i64,
        }
    }

    /// Each component clamped into `[-UNIT, UNIT]`.
    pub open spec fn clamp_axes_spec(self) -> Vec3 {
        Vec3 {
            x: clamp_spec(self.x as int, -UNIT as int, UNIT as int) as i64,
            y: clamp_spec(self.y as int, -UNIT as int, UNIT as int) as i64,
            z: clamp_spec(self.z as int, -UNIT as int, UNIT as int) as i64,
        }
    }

    /// The vector of the same length that points the other way.
    pub open spec fn negated_spec(self) -> Vec3
        recommends
            self.x > i64::MIN,
            self.y > i64::MIN,
            self.z > i64::MIN,
    {
        Vec3 { x: (-self.x) as i64, y: (-self.y) as i64, z: (-self.z) as i64 }
    }

    /// The vector shortened to length one where it is longer, by dividing
    /// each component by the rounded-up length and rounding toward zero.
    pub open spec fn clamp_length_spec(self) -> Vec3 {
        if self.within_unit_length() {
            self
        } else {
            let len = ceil_sqrt_spec(self.norm_squared());
            Vec3 {
                x: quot_spec(self.x * UNIT, len) as i64,
                y: quot_spec(self.y * UNIT, len) as i64,
                z: quot_spec(self.z * UNIT, len) as i64,
            }
        }
    }

    /// The same vector with its vertical component removed.
    pub open spec fn flattened_spec(self) -> Vec3 {
        Vec3 { x: self.x, y: 0, z: self.z }
    }

    /// Adds `other` and clamps each component of the sum into
    /// `[-UNIT, UNIT]`; no sum overflows.
    pub fn add_clamped(self, other: Vec3) -> (v: Vec3)
        ensures
            v == self.add_clamped_spec(other),
            v.within_axes(),
    {
        Vec3 {
            x: clamp_unit(self.x as i128 + other.x as i128),
            y: clamp_unit(self.y as i128 + other.y as i128),
            z: clamp_unit(self.z as i128 + other.z as i128),
        }
    }

    /// Clamps each component into `[-UNIT, UNIT]`.
    pub fn clamp_axes(self) -> (v: Vec3)
        ensures
            v == self.clamp_axes_spec(),
            v.within_axes(),
    {
        Vec3 {
            x: clamp_unit(self.x as i128),
            y: clamp_unit(self.y as i128),
            z: clamp_unit(self.z as i128),
        }
    }

    /// Whether every component lies in `[-UNIT, UNIT]`.
    pub fn is_within_axes(self) -> (b: bool)
        ensures
            b == self.within_axes(),
    {
        -UNIT <= self.x && self.x <= UNIT && -UNIT <= self.y && self.y <= UNIT && -UNIT <= self.z
            && self.z <= UNIT
    }

    /// The vector that points the other way.
    pub fn negated(self) -> (v: Vec3)
        requires
            self.x > i64::MIN,
            self.y > i64::MIN,
            self.z > i64::MIN,
        ensures
            v == self.negated_spec(),
            self.within_axes() ==> v.within_axes(),
    {
        Vec3 { x: -self.x, y: -self.y, z: -self.z }
    }

    /// Shortens the vector to length one where it is longer.
    pub fn clamp_length_max(self) -> (v: Vec3)
        requires
            self.within_axes(),
        ensures
            v == self.clamp_length_spec(),
            v.within_axes(),
            v.within_unit_length(),
    {
        proof {
            lemma_axes_norm_bound(self);
        }
        let n: i64 = self.x * self.x + self.y * self.y + self.z * self.z;
        if n <= UNIT * UNIT {
            self
        } else {
            let len: u64 = ceil_sqrt(n as u64);
            proof {
                lemma_clamp_length_bounds(self);
            }
            let x: i128 = quot(self.x as i128 * UNIT as i128, len as i128);
            let y: i128 = quot(self.y as i128 * UNIT as i128, len as i128);
            let z: i128 = quot(self.z as i128 * UNIT as i128, len as i128);
            Vec3 { x: x as i64, y: y as i64, z: z as i64 }
        }
    }

    /// Removes the vertical component.
    pub fn flattened(self) -> (v: Vec3)
        ensures
            v == self.flattened_spec(),
    {
        Vec3 { x: self.x, y: 0, z: self.z }
    }
}

impl Facing {
    /// The cosine and sine are those of some angle, up to rounding toward
    /// zero: neither leaves `[-UNIT, UNIT]`, and their squares sum to at
    /// most one.
    pub open spec fn wf(self) -> bool {
        &&& -UNIT <= self.cos <= UNIT
        &&& -UNIT <= self.sin <= UNIT
        &&& self.cos * self.cos + self.sin * self.sin <= UNIT * UNIT
    }

    /// The facing of a character that has not turned.
    pub open spec fn identity_spec() -> Facing {
        Facing { cos: UNIT, sin: 0 }
    }

    /// `v` turned about the vertical axis by the facing's angle, each
    /// horizontal component rounded toward zero.
    pub open spec fn rotate_spec(self, v: Vec3) -> Vec3 {
        Vec3 {
            x: quot_spec(self.cos * v.x + self.sin * v.z, UNIT as int) as i64,
            y: v.y,
            z: quot_spec(self.cos * v.z - self.sin * v.x, UNIT as int) as i64,
        }
    }

    /// The facing of a character that has not turned.
    pub fn identity() -> (f: Facing)
        ensures
            f == Facing::identity_spec(),
            f.wf(),
    {
        Facing { cos: UNIT, sin: 0 }
    }

    /// The facing with the cosine and sine given, where they are
    /// well-formed; `None` where they are not.
    pub fn new(cos: i64, sin: i64) -> (f: Option<Facing>)
        ensures
            (Facing { cos, sin }).wf() ==> f == Some(Facing { cos, sin }),
            !(Facing { cos, sin }).wf() ==> f.is_none(),
    {
        if -UNIT <= cos && cos <= UNIT && -UNIT <= sin && sin <= UNIT {
            proof {
                lemma_square_bound(cos as int, UNIT as int);
                lemma_square_bound(sin as int, UNIT as int);
            }
            if cos * cos + sin * sin <= UNIT * UNIT {
                Some(Facing { cos, sin })
            } else {
                None
            }
        } else {
            None
        }
    }

    /// Turns a local direction into world space.
    pub fn rotate(self, v: Vec3) -> (w: Vec3)
        requires
            self.wf(),
            v.within_axes(),
            v.within_unit_length(),
        ensures
            w == self.rotate_spec(v),
            w.within_axes(),
            w.within_unit_length(),
    {
        proof {
            lemma_rotate_bounds(self, v);
        }
        let a: i64 = self.cos * v.x + self.sin * v.z;
        let b: i64 = self.cos * v.z - self.sin * v.x;
        let x: i128 = quot(a as i128, UNIT as i128);
        let z: i128 = quot(b as i128, UNIT as i128);
        Vec3 { x: x as i64, y: v.y, z: z as i64 }
    }
}

/// The quotient toward zero is no larger in size than the exact quotient,
/// and has the sign of the dividend.
pub proof fn lemma_quot_shrinks(a: int, b: int)
    requires
        b > 0,
    ensures
        quot_spec(a, b) * quot_spec(a, b) * (b * b) <= a * a,
        a >= 0 ==> 0 <= quot_spec(a, b) <= a,
        a <= 0 ==> a <= quot_spec(a, b) <= 0,
        a >= 0 ==> quot_spec(a, b) * b <= a,
        a <= 0 ==> quot_spec(a, b) * b >= a,
        quot_spec(-a, b) == -quot_spec(a, b),
{
    let m = if a >= 0 { a } else { -a };
    let q = m / b;
    assert(0 <= q && q * b <= m && q <= m) by (nonlinear_arith)
        requires
            q == m / b,
            m >= 0,
            b > 0,
    ;
    assert((q * q) * (b * b) <= m * m) by (nonlinear_arith)
        requires
            0 <= q * b <= m,
    ;
    assert(m * m == a * a) by (nonlinear_arith)
        requires
            m == a || m == -a,
    ;
    assert((-q) * (-q) == q * q) by (nonlinear_arith);
    assert((-q) * b == -(q * b)) by (nonlinear_arith);
    assert(0int / b == 0) by (nonlinear_arith)
        requires
            b > 0,
    ;
}

/// Turning a direction of at most unit length keeps every product and sum
/// small, and the result within the axis bounds and within unit length.
pub proof fn lemma_rotate_bounds(f: Facing, v: Vec3)
    requires
        f.wf(),
        v.within_axes(),
        v.within_unit_length(),
    ensures
        -UNIT * UNIT <= f.cos * v.x <= UNIT * UNIT,
        -UNIT * UNIT <= f.sin * v.z <= UNIT * UNIT,
        -UNIT * UNIT <= f.cos * v.z <= UNIT * UNIT,
        -UNIT * UNIT <= f.sin * v.x <= UNIT * UNIT,
        f.rotate_spec(v).x == quot_spec(f.cos * v.x + f.sin * v.z, UNIT as int),
        f.rotate_spec(v).z == quot_spec(f.cos * v.z - f.sin * v.x, UNIT as int),
        f.rotate_spec(v).within_axes(),
        f.rotate_spec(v).norm_squared() <= v.norm_squared(),
        f.rotate_spec(v).within_unit_length(),
{
    let u = UNIT as int;
    let c = f.cos as int;
    let s = f.sin as int;
    let x = v.x as int;
    let z = v.z as int;
    lemma_product_bound(c, x, u);
    lemma_product_bound(s, z, u);
    lemma_product_bound(c, z, u);
    lemma_product_bound(s, x, u);
    let a = c * x + s * z;
    let b = c * z - s * x;
    lemma_quot_shrinks(a, u);
    lemma_quot_shrinks(b, u);
    let qa = quot_spec(a, u);
    let qb = quot_spec(b, u);
    lemma_rotation_identity(c, s, x, z);
    lemma_axes_norm_bound(v);
    assert((c * c + s * s) * (x * x + z * z) <= (u * u) * (x * x + z * z)) by (nonlinear_arith)
        requires
            c * c + s * s <= u * u,
            x * x + z * z >= 0,
    ;
    assert((qa * qa + qb * qb) * (u * u) <= (u * u) * (x * x + z * z)) by (nonlinear_arith)
        requires
            qa * qa * (u * u) <= a * a,
            qb * qb * (u * u) <= b * b,
            a * a + b * b <= (u * u) * (x * x + z * z),
    ;
    assert(qa * qa + qb * qb <= x * x + z * z) by (nonlinear_arith)
        requires
            (qa * qa + qb * qb) * (u * u) <= (u * u) * (x * x + z * z),
            u > 0,
    ;
    assert(qa * qa >= 0 && qb * qb >= 0) by (nonlinear_arith);
    assert(x * x + z * z <= u * u);
    lemma_square_root_bound(qa, u);
    lemma_square_root_bound(qb, u);
}

/// The squares of the two rotated components sum to the product of the
/// sums of squares.
pub proof fn lemma_rotation_identity(c: int, s: int, x: int, z: int)
    ensures
        (c * x + s * z) * (c * x + s * z) + (c * z - s * x) * (c * z - s * x) == (c * c + s * s)
            * (x * x + z * z),
{
    let p = c * x;
    let q = s * z;
    let r = c * z;
    let t = s * x;
    assert((p + q) * (p + q) == p * p + 2 * (p * q) + q * q) by (nonlinear_arith);
    assert((r - t) * (r - t) == r * r - 2 * (r * t) + t * t) by (nonlinear_arith);
    assert(p * q == r * t) by (nonlinear_arith)
        requires
            p == c * x,
            q == s * z,
            r == c * z,
            t == s * x,
    ;
    assert(p * p == (c * c) * (x * x)) by (nonlinear_arith)
        requires
            p == c * x,
    ;
    assert(q * q == (s * s) * (z * z)) by (nonlinear_arith)
        requires
            q == s * z,
    ;
    assert(r * r == (c * c) * (z * z)) by (nonlinear_arith)
        requires
            r == c * z,
    ;
    assert(t * t == (s * s) * (x * x)) by (nonlinear_arith)
        requires
            t == s * x,
    ;
    assert((c * c + s * s) * (x * x + z * z) == (c * c) * (x * x) + (c * c) * (z * z) + (s * s)
        * (x * x) + (s * s) * (z * z)) by (nonlinear_arith);
}

/// Two numbers of size at most `b` have a product of size at most `b * b`.
pub proof fn lemma_product_bound(a: int, c: int, b: int)
    by (nonlinear_arith)
    requires
        -b <= a <= b,
        -b <= c <= b,
    ensures
        -(b * b) <= a * c <= b * b,
{
}

/// A number whose square is at most `b * b` has a size of at most `b`.
pub proof fn lemma_square_root_bound(a: int, b: int)
    by (nonlinear_arith)
    requires
        b >= 0,
        a * a <= b * b,
    ensures
        -b <= a <= b,
{
}

/// A vector within the axis bounds has a squared length of at most three.
pub proof fn lemma_axes_norm_bound(v: Vec3)
    requires
        v.within_axes(),
    ensures
        0 <= v.x * v.x <= UNIT * UNIT,
        0 <= v.y * v.y <= UNIT * UNIT,
        0 <= v.z * v.z <= UNIT * UNIT,
        0 <= v.norm_squared() <= 3 * (UNIT * UNIT),
{
    lemma_square_bound(v.x as int, UNIT as int);
    lemma_square_bound(v.y as int, UNIT as int);
    lemma_square_bound(v.z as int, UNIT as int);
}

/// A number between `-b` and `b` has a square between zero and `b * b`.
pub proof fn lemma_square_bound(a: int, b: int)
    by (nonlinear_arith)
    requires
        -b <= a <= b,
    ensures
        0 <= a * a <= b * b,
{
}

/// The quotient toward zero of `a * u` by `l` is no larger in size than
/// `a * u / l`: its square times `l * l` stays within `a * a * u * u`, and
/// it keeps the bounds of `a` where `l` is at least `u`.
pub proof fn lemma_quot_square(a: int, u: int, l: int)
    requires
        u > 0,
        l >= u,
    ensures
        quot_spec(a * u, l) * quot_spec(a * u, l) * (l * l) <= (a * a) * (u * u),
        a >= 0 ==> 0 <= quot_spec(a * u, l) <= a,
        a <= 0 ==> a <= quot_spec(a * u, l) <= 0,
{
    let m = if a >= 0 { a } else { -a };
    let q = (m * u) / l;
    assert(m * u >= 0) by (nonlinear_arith)
        requires
            m >= 0,
            u > 0,
    ;
    assert(0 <= q && q * l <= m * u) by (nonlinear_arith)
        requires
            q == (m * u) / l,
            m * u >= 0,
            l > 0,
    ;
    assert(q <= m) by (nonlinear_arith)
        requires
            q * l <= m * u,
            l >= u,
            u > 0,
            q >= 0,
            m >= 0,
    ;
    assert((q * q) * (l * l) <= (m * m) * (u * u)) by (nonlinear_arith)
        requires
            0 <= q * l <= m * u,
    ;
    assert(m * m == a * a) by (nonlinear_arith)
        requires
            m == a || m == -a,
    ;
    if a >= 0 {
        assert(quot_spec(a * u, l) == q);
    } else {
        assert(-(a * u) == m * u) by (nonlinear_arith)
            requires
                m == -a,
        ;
        assert(a * u <= 0) by (nonlinear_arith)
            requires
                a < 0,
                u > 0,
        ;
        if a * u < 0 {
            assert(quot_spec(a * u, l) == -q);
        } else {
            assert(quot_spec(a * u, l) == q);
            assert(m * u == 0);
            assert(q == 0);
        }
        assert((-q) * (-q) == q * q) by (nonlinear_arith);
    }
}

/// Shortening a vector that is longer than one gives components within the
/// axis bounds and a length of at most one.
pub proof fn lemma_clamp_length_bounds(v: Vec3)
    requires
        v.within_axes(),
        !v.within_unit_length(),
    ensures
        ceil_sqrt_spec(v.norm_squared()) > UNIT,
        v.clamp_length_spec().within_axes(),
        v.clamp_length_spec().within_unit_length(),
        v.clamp_length_spec().x == quot_spec(v.x * UNIT, ceil_sqrt_spec(v.norm_squared())),
        v.clamp_length_spec().y == quot_spec(v.y * UNIT, ceil_sqrt_spec(v.norm_squared())),
        v.clamp_length_spec().z == quot_spec(v.z * UNIT, ceil_sqrt_spec(v.norm_squared())),
{
    let n = v.norm_squared();
    let u = UNIT as int;
    lemma_axes_norm_bound(v);
    lemma_ceil_sqrt_exists(n);
    let l = ceil_sqrt_spec(n);
    assert(is_ceil_sqrt(n, l));
    assert(l > u) by (nonlinear_arith)
        requires
            l * l >= n,
            n > u * u,
            l >= 0,
            u > 0,
    ;
    lemma_quot_square(v.x as int, u, l);
    lemma_quot_square(v.y as int, u, l);
    lemma_quot_square(v.z as int, u, l);
    let qx = quot_spec(v.x * u, l);
    let qy = quot_spec(v.y * u, l);
    let qz = quot_spec(v.z * u, l);
    assert((qx * qx + qy * qy + qz * qz) * (l * l) <= n * (u * u)) by (nonlinear_arith)
        requires
            qx * qx * (l * l) <= (v.x * v.x) * (u * u),
            qy * qy * (l * l) <= (v.y * v.y) * (u * u),
            qz * qz * (l * l) <= (v.z * v.z) * (u * u),
            n == v.x * v.x + v.y * v.y + v.z * v.z,
    ;
    assert(qx * qx + qy * qy + qz * qz <= u * u) by (nonlinear_arith)
        requires
            (qx * qx + qy * qy + qz * qz) * (l * l) <= n * (u * u),
            n <= l * l,
            l > 0,
            u > 0,
    ;
}

/// Every natural number has a rounded-up square root.
pub proof fn lemma_ceil_sqrt_exists(n: int)
    requires
        n >= 0,
    ensures
        is_ceil_sqrt(n, ceil_sqrt_spec(n)),
    decreases n,
{
    lemma_ceil_sqrt_search(n, 0);
}

/// There is a rounded-up square root of `n` at or above `r`, where the
/// square of `r - 1` is still below `n`.
proof fn lemma_ceil_sqrt_search(n: int, r: int)
    requires
        n >= 0,
        0 <= r <= n,
        r == 0 || (r - 1) * (r - 1) < n,
    ensures
        is_ceil_sqrt(n, ceil_sqrt_spec(n)),
    decreases n - r,
{
    if r * r >= n {
        assert(is_ceil_sqrt(n, r));
    } else {
        assert(r < n) by (nonlinear_arith)
            requires
                r * r < n,
                0 <= r <= n,
        ;
        lemma_ceil_sqrt_search(n, r + 1);
    }
}

} // verus!
