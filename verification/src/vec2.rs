//! Two-dimensional vectors of fixed-point numbers: dot and cross products,
//! squared magnitude, exact magnitude by integer square root, and the fast
//! approximate magnitude/normalisation used by the physics integrator.

use vstd::prelude::*;
use crate::fixed::{
    crop32, fx_abs, fx_add, fx_div, fx_divi, fx_floor, fx_mul, fx_muli, fx_neg, fx_sub, is_sqrt,
    Fx,
};

verus! {

/// Coefficient on the larger component in the approximate magnitude
/// (0.960433870103 in raw fixed-point form).
pub const FAST_MAG_MAX_COEF: i32 = 245;

/// Coefficient on the smaller component in the approximate magnitude
/// (0.397824734759 in raw fixed-point form).
pub const FAST_MAG_MIN_COEF: i32 = 101;

/// A 2D vector of fixed-point world coordinates.
#[derive(Clone, Copy, PartialEq, Eq, Structural, Debug)]
pub struct Vec2 {
    pub x: Fx,
    pub y: Fx,
}

/// The fixed-point number with the given (already cropped) raw value.
pub open spec fn fx2(v: int) -> Fx {
    Fx { raw: v as i32 }
}

/// Spec-level component-wise addition.
pub open spec fn v_add(a: Vec2, b: Vec2) -> Vec2 {
    Vec2 {
        x: fx2(fx_add(a.x.raw as int, b.x.raw as int)),
        y: fx2(fx_add(a.y.raw as int, b.y.raw as int)),
    }
}

/// Spec-level component-wise subtraction.
pub open spec fn v_sub(a: Vec2, b: Vec2) -> Vec2 {
    Vec2 {
        x: fx2(fx_sub(a.x.raw as int, b.x.raw as int)),
        y: fx2(fx_sub(a.y.raw as int, b.y.raw as int)),
    }
}

/// Spec-level component-wise negation.
pub open spec fn v_neg(a: Vec2) -> Vec2 {
    Vec2 { x: fx2(fx_neg(a.x.raw as int)), y: fx2(fx_neg(a.y.raw as int)) }
}

/// Spec-level scaling by a fixed-point number.
pub open spec fn v_scale(a: Vec2, k: Fx) -> Vec2 {
    Vec2 {
        x: fx2(fx_mul(a.x.raw as int, k.raw as int)),
        y: fx2(fx_mul(a.y.raw as int, k.raw as int)),
    }
}

/// Spec-level scaling by an integer.
pub open spec fn v_scale_int(a: Vec2, k: int) -> Vec2 {
    Vec2 { x: fx2(fx_muli(a.x.raw as int, k)), y: fx2(fx_muli(a.y.raw as int, k)) }
}

/// Spec-level component-wise division by a fixed-point number.
pub open spec fn v_div(a: Vec2, k: Fx) -> Vec2 {
    Vec2 {
        x: fx2(fx_div(a.x.raw as int, k.raw as int)),
        y: fx2(fx_div(a.y.raw as int, k.raw as int)),
    }
}

/// Spec-level component-wise division by an integer.
pub open spec fn v_divi(a: Vec2, k: int) -> Vec2 {
    Vec2 { x: fx2(fx_divi(a.x.raw as int, k)), y: fx2(fx_divi(a.y.raw as int, k)) }
}

/// Spec-level dot product (raw).
pub open spec fn v_dot(a: Vec2, b: Vec2) -> int {
    dot_raw(a.x.raw as int, a.y.raw as int, b.x.raw as int, b.y.raw as int)
}

/// Spec-level cross product (raw z component).
pub open spec fn v_cross(a: Vec2, b: Vec2) -> int {
    cross_raw(a.x.raw as int, a.y.raw as int, b.x.raw as int, b.y.raw as int)
}

/// Spec-level squared magnitude (raw).
pub open spec fn v_magsq(a: Vec2) -> int {
    mag_sq_raw(a.x.raw as int, a.y.raw as int)
}

/// Spec-level exact magnitude (raw), for a non-negative squared magnitude.
pub open spec fn v_mag(a: Vec2) -> int {
    crate::fixed::fx_sqrt(v_magsq(a))
}

/// Spec-level approximate magnitude (raw).
pub open spec fn v_fastmag(a: Vec2) -> int {
    fast_mag_raw(a.x.raw as int, a.y.raw as int)
}

/// Spec-level exact normalisation.
pub open spec fn v_norm(a: Vec2) -> Vec2 {
    v_div(a, fx2(v_mag(a)))
}

/// Spec-level approximate normalisation.
pub open spec fn v_fastnorm(a: Vec2) -> Vec2 {
    v_div(a, fx2(v_fastmag(a)))
}

/// Raw dot product of two vectors.
pub open spec fn dot_raw(ax: int, ay: int, bx: int, by: int) -> int {
    fx_add(fx_mul(ax, bx), fx_mul(ay, by))
}

/// Raw cross product (z component) of two vectors.
pub open spec fn cross_raw(ax: int, ay: int, bx: int, by: int) -> int {
    fx_sub(fx_mul(ax, by), fx_mul(ay, bx))
}

/// Raw squared magnitude of a vector.
pub open spec fn mag_sq_raw(x: int, y: int) -> int {
    dot_raw(x, y, x, y)
}

/// Raw approximate magnitude: alpha-max-plus-beta-min on the absolute
/// components.
pub open spec fn fast_mag_raw(x: int, y: int) -> int {
    let ax = fx_abs(x);
    let ay = fx_abs(y);
    let hi = if ax >= ay { ax } else { ay };
    let lo = if ax >= ay { ay } else { ax };
    fx_add(fx_mul(hi, FAST_MAG_MAX_COEF as int), fx_mul(lo, FAST_MAG_MIN_COEF as int))
}

/// Adding back a wrapped vector difference restores the original vector.
pub proof fn lemma_add_sub_cancel(a: Vec2, b: Vec2)
    ensures
        v_add(a, v_sub(b, a)) == b,
{
    crate::fixed::lemma_add_sub_cancel_raw(a.x.raw as int, b.x.raw as int);
    crate::fixed::lemma_add_sub_cancel_raw(a.y.raw as int, b.y.raw as int);
}

impl Vec2 {
    /// The vector with the given components.
    pub fn new(x: Fx, y: Fx) -> (r: Vec2)
        ensures
            r.x == x,
            r.y == y,
    {
        Vec2 { x, y }
    }

    /// The zero vector.
    pub fn zero() -> (r: Vec2)
        ensures
            r.x.raw == 0,
            r.y.raw == 0,
    {
        Vec2 { x: Fx { raw: 0 }, y: Fx { raw: 0 } }
    }

    /// Component-wise addition.
    pub fn add(self, o: Vec2) -> (r: Vec2)
        ensures
            r == v_add(self, o),
            r.x.raw as int == fx_add(self.x.raw as int, o.x.raw as int),
            r.y.raw as int == fx_add(self.y.raw as int, o.y.raw as int),
    {
        Vec2 { x: self.x.add(o.x), y: self.y.add(o.y) }
    }

    /// Component-wise subtraction.
    pub fn sub(self, o: Vec2) -> (r: Vec2)
        ensures
            r == v_sub(self, o),
            r.x.raw as int == fx_sub(self.x.raw as int, o.x.raw as int),
            r.y.raw as int == fx_sub(self.y.raw as int, o.y.raw as int),
    {
        Vec2 { x: self.x.sub(o.x), y: self.y.sub(o.y) }
    }

    /// Component-wise negation.
    pub fn neg(self) -> (r: Vec2)
        ensures
            r == v_neg(self),
            r.x.raw as int == fx_neg(self.x.raw as int),
            r.y.raw as int == fx_neg(self.y.raw as int),
    {
        Vec2 { x: self.x.neg(), y: self.y.neg() }
    }

    /// Scaling by a fixed-point number.
    pub fn scale(self, k: Fx) -> (r: Vec2)
        ensures
            r == v_scale(self, k),
            r.x.raw as int == fx_mul(self.x.raw as int, k.raw as int),
            r.y.raw as int == fx_mul(self.y.raw as int, k.raw as int),
    {
        Vec2 { x: self.x.mul(k), y: self.y.mul(k) }
    }

    /// Scaling by an integer.
    pub fn scale_int(self, k: i32) -> (r: Vec2)
        ensures
            r == v_scale_int(self, k as int),
            r.x.raw as int == fx_muli(self.x.raw as int, k as int),
            r.y.raw as int == fx_muli(self.y.raw as int, k as int),
    {
        Vec2 { x: self.x.mul_int(k), y: self.y.mul_int(k) }
    }

    /// Component-wise division by a fixed-point number.
    pub fn div(self, k: Fx) -> (r: Vec2)
        requires
            k.raw != 0,
            !(crop32(self.x.raw as int * 256) == i32::MIN as int && k.raw == -1),
            !(crop32(self.y.raw as int * 256) == i32::MIN as int && k.raw == -1),
        ensures
            r == v_div(self, k),
            r.x.raw as int == fx_div(self.x.raw as int, k.raw as int),
            r.y.raw as int == fx_div(self.y.raw as int, k.raw as int),
    {
        Vec2 { x: self.x.div(k), y: self.y.div(k) }
    }

    /// Component-wise division by an integer.
    pub fn div_int(self, k: i32) -> (r: Vec2)
        requires
            k != 0,
            !(self.x.raw == i32::MIN && k == -1),
            !(self.y.raw == i32::MIN && k == -1),
        ensures
            r == v_divi(self, k as int),
            r.x.raw as int == fx_divi(self.x.raw as int, k as int),
            r.y.raw as int == fx_divi(self.y.raw as int, k as int),
    {
        Vec2 { x: self.x.div_int(k), y: self.y.div_int(k) }
    }

    /// Dot product.
    pub fn dot(self, o: Vec2) -> (r: Fx)
        ensures
            r.raw as int == dot_raw(
                self.x.raw as int,
                self.y.raw as int,
                o.x.raw as int,
                o.y.raw as int,
            ),
    {
        self.x.mul(o.x).add(self.y.mul(o.y))
    }

    /// Cross product (z component).
    pub fn cross(self, o: Vec2) -> (r: Fx)
        ensures
            r.raw as int == cross_raw(
                self.x.raw as int,
                self.y.raw as int,
                o.x.raw as int,
                o.y.raw as int,
            ),
    {
        self.x.mul(o.y).sub(self.y.mul(o.x))
    }

    /// Squared magnitude.
    pub fn mag_sq(self) -> (r: Fx)
        ensures
            r.raw as int == mag_sq_raw(self.x.raw as int, self.y.raw as int),
    {
        self.dot(self)
    }

    /// Exact magnitude by integer square root.  Defined only where the
    /// squared magnitude did not wrap to a negative raw value, which is
    /// where the hardware build would halt.
    pub fn magnitude(self) -> (r: Fx)
        requires
            mag_sq_raw(self.x.raw as int, self.y.raw as int) >= 0,
        ensures
            r == fx2(v_mag(self)),
            r.raw as int == crate::fixed::fx_sqrt(mag_sq_raw(self.x.raw as int, self.y.raw as int)),
            r.raw % 16 == 0,
            is_sqrt(mag_sq_raw(self.x.raw as int, self.y.raw as int), r.raw as int / 16),
    {
        let r = self.mag_sq().sqrt();
        proof {
            crate::fixed::lemma_fx_sqrt_range(v_magsq(self));
        }
        r
    }

    /// Approximate magnitude: alpha-max-plus-beta-min over the absolute
    /// components.
    pub fn fast_magnitude(self) -> (r: Fx)
        ensures
            r.raw as int == fast_mag_raw(self.x.raw as int, self.y.raw as int),
    {
        let ax = self.x.abs();
        let ay = self.y.abs();
        let (hi, lo) = if ax.raw >= ay.raw {
            (ax, ay)
        } else {
            (ay, ax)
        };
        hi.mul(Fx { raw: FAST_MAG_MAX_COEF }).add(lo.mul(Fx { raw: FAST_MAG_MIN_COEF }))
    }

    /// Approximate normalisation: division by the approximate magnitude.
    /// Defined only where that magnitude is non-zero (the hardware build
    /// would otherwise halt on the division).
    pub fn fast_normalise(self) -> (r: Vec2)
        requires
            fast_mag_raw(self.x.raw as int, self.y.raw as int) != 0,
            !(crop32(self.x.raw as int * 256) == i32::MIN as int && fast_mag_raw(
                self.x.raw as int,
                self.y.raw as int,
            ) == -1),
            !(crop32(self.y.raw as int * 256) == i32::MIN as int && fast_mag_raw(
                self.x.raw as int,
                self.y.raw as int,
            ) == -1),
        ensures
            r == v_fastnorm(self),
            r.x.raw as int == fx_div(
                self.x.raw as int,
                fast_mag_raw(self.x.raw as int, self.y.raw as int),
            ),
            r.y.raw as int == fx_div(
                self.y.raw as int,
                fast_mag_raw(self.x.raw as int, self.y.raw as int),
            ),
    {
        let m = self.fast_magnitude();
        self.div(m)
    }

    /// Exact normalisation: division by the exact magnitude.  Defined only
    /// where the squared magnitude did not wrap negative and the magnitude
    /// is non-zero.
    pub fn normalise(self) -> (r: Vec2)
        requires
            mag_sq_raw(self.x.raw as int, self.y.raw as int) >= 0,
            crate::fixed::fx_sqrt(mag_sq_raw(self.x.raw as int, self.y.raw as int)) != 0,
        ensures
            r == v_norm(self),
            r.x.raw as int == fx_div(
                self.x.raw as int,
                crate::fixed::fx_sqrt(mag_sq_raw(self.x.raw as int, self.y.raw as int)),
            ),
            r.y.raw as int == fx_div(
                self.y.raw as int,
                crate::fixed::fx_sqrt(mag_sq_raw(self.x.raw as int, self.y.raw as int)),
            ),
    {
        let m = self.magnitude();
        self.div(m)
    }

    /// Component-wise floor to integer grid coordinates.
    pub fn floor(self) -> (r: (i32, i32))
        ensures
            r.0 as int == fx_floor(self.x.raw as int),
            r.1 as int == fx_floor(self.y.raw as int),
    {
        (self.x.floor(), self.y.floor())
    }
}

} // verus!
