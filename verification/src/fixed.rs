//! Fixed-point scalar arithmetic: the deterministic numeric substrate for the
//! whole library.
//!
//! A world-coordinate number is stored as a raw `i32` holding the value times
//! 256 (8 fractional bits).  All arithmetic is exact 32-bit machine
//! arithmetic: additions and multiplications wrap modulo 2^32 exactly like the
//! release builds of the target hardware, so results are reproducible on
//! every platform.  The contracts below pin each operation down to the
//! mathematical model `crop32` (the centred mod-2^32 representative).

use vstd::prelude::*;
use vstd::arithmetic::div_mod::{
    lemma_fundamental_div_mod, lemma_fundamental_div_mod_converse, lemma_mod_multiples_vanish,
};

verus! {

/// The raw representation of 1.0: 2^8.
pub const FX_ONE: i32 = 256;

/// The raw representation of 1.0 in the high-precision timer format: 2^24.
pub const FX24_ONE: i32 = 16777216;

/// Centred representative of `x` modulo 2^32: the value a 32-bit register
/// holds after a wrapping computation of `x`.
pub open spec fn crop32(x: int) -> int {
    if x % 0x1_0000_0000 > i32::MAX as int {
        x % 0x1_0000_0000 - 0x1_0000_0000
    } else {
        x % 0x1_0000_0000
    }
}

/// Division truncating towards zero, as the `/` of the hardware.
pub open spec fn tdiv(a: int, b: int) -> int {
    if a >= 0 {
        if b >= 0 {
            a / b
        } else {
            -(a / -b)
        }
    } else {
        if b >= 0 {
            -(-a / b)
        } else {
            -a / -b
        }
    }
}

/// Raw result of a fixed-point addition.
pub open spec fn fx_add(a: int, b: int) -> int {
    crop32(a + b)
}

/// Raw result of a fixed-point subtraction.
pub open spec fn fx_sub(a: int, b: int) -> int {
    crop32(a - b)
}

/// Raw result of a fixed-point negation.
pub open spec fn fx_neg(a: int) -> int {
    crop32(-a)
}

/// Raw result of a fixed-point multiplication: the 64-bit product shifted
/// down by the 8 fractional bits (flooring), wrapped to 32 bits.
pub open spec fn fx_mul(a: int, b: int) -> int {
    crop32((a * b) / 256)
}

/// Raw result of multiplying a fixed-point number by an integer.
pub open spec fn fx_muli(a: int, k: int) -> int {
    crop32(a * k)
}

/// Raw result of a fixed-point division `a / b`.
pub open spec fn fx_div(a: int, b: int) -> int {
    tdiv(crop32(a * 256), b)
}

/// Raw result of dividing a fixed-point number by an integer.
pub open spec fn fx_divi(a: int, k: int) -> int {
    tdiv(a, k)
}

/// Raw representation of the integer `v`.
pub open spec fn fx_of_int(v: int) -> int {
    crop32(v * 256)
}

/// Integer part, rounding towards negative infinity.
pub open spec fn fx_floor(a: int) -> int {
    a / 256
}

/// Raw result of the absolute value (wrapping at the minimum value, as the
/// hardware's wrapping `abs` does).
pub open spec fn fx_abs(a: int) -> int {
    if a == i32::MIN as int {
        a
    } else if a < 0 {
        -a
    } else {
        a
    }
}

/// A value already in the 32-bit range is its own centred representative.
pub proof fn lemma_crop32_exact(x: int)
    requires
        i32::MIN <= x <= i32::MAX,
    ensures
        crop32(x) == x,
{
    let m = 0x1_0000_0000;
    if x >= 0 {
        vstd::arithmetic::div_mod::lemma_small_mod(x as nat, m as nat);
    } else {
        vstd::arithmetic::div_mod::lemma_mod_add_multiples_vanish(x, m);
        vstd::arithmetic::div_mod::lemma_small_mod((x + m) as nat, m as nat);
    }
}

/// The centred representative stays in the 32-bit range.
pub proof fn lemma_crop32_bounds(x: int)
    ensures
        i32::MIN <= crop32(x) <= i32::MAX,
{
    let m = 0x1_0000_0000;
    vstd::arithmetic::div_mod::lemma_mod_division_less_than_divisor(x, m);
}

/// Cropping keeps the value's residue modulo 2^32.
pub proof fn lemma_crop32_congruence(x: int)
    ensures
        crop32(x) % 0x1_0000_0000 == x % 0x1_0000_0000,
{
    let m = 0x1_0000_0000;
    vstd::arithmetic::div_mod::lemma_mod_division_less_than_divisor(x, m);
    if x % m > i32::MAX as int {
        vstd::arithmetic::div_mod::lemma_mod_sub_multiples_vanish(x % m, m);
        vstd::arithmetic::div_mod::lemma_mod_twice(x, m);
    } else {
        vstd::arithmetic::div_mod::lemma_mod_twice(x, m);
    }
}

/// Adding back a wrapped difference restores the original value: the
/// fixed-point analogue of `a + (b - a) == b`.
pub proof fn lemma_add_sub_cancel_raw(a: int, b: int)
    requires
        i32::MIN <= a <= i32::MAX,
        i32::MIN <= b <= i32::MAX,
    ensures
        fx_add(a, fx_sub(b, a)) == b,
{
    let m = 0x1_0000_0000;
    let c = fx_sub(b, a);
    lemma_crop32_congruence(b - a);
    lemma_crop32_bounds(b - a);
    vstd::arithmetic::div_mod::lemma_add_mod_noop(a, c, m);
    vstd::arithmetic::div_mod::lemma_add_mod_noop(a, b - a, m);
    assert((a + c) % m == b % m);
    lemma_crop32_congruence(a + c);
    lemma_crop32_bounds(a + c);
    lemma_crop32_exact(b);
    lemma_crop32_congruence(b);
    let u = crop32(a + c);
    assert(u % m == b % m);
    assert(u == b) by {
        vstd::arithmetic::div_mod::lemma_fundamental_div_mod(u, m);
        vstd::arithmetic::div_mod::lemma_fundamental_div_mod(b, m);
        assert(u == m * (u / m) + (u % m));
        assert(b == m * (b / m) + (b % m));
        assert(-m < u < m && -m < b < m);
        assert(u - b == m * (u / m) - m * (b / m));
        assert(u - b == m * (u / m - b / m)) by (nonlinear_arith)
            requires
                u - b == m * (u / m) - m * (b / m),
        ;
        if u / m - b / m >= 1 {
            assert(u - b >= m) by (nonlinear_arith)
                requires
                    u - b == m * (u / m - b / m),
                    u / m - b / m >= 1,
                    m > 0,
            ;
        }
        if u / m - b / m <= -1 {
            assert(u - b <= -m) by (nonlinear_arith)
                requires
                    u - b == m * (u / m - b / m),
                    u / m - b / m <= -1,
                    m > 0,
            ;
        }
    };
}

/// `r` is the integer square root of `x`.
pub open spec fn is_sqrt(x: int, r: int) -> bool {
    0 <= r && r * r <= x && x < (r + 1) * (r + 1)
}

/// The integer square root as a function.
pub open spec fn isqrt_spec(x: nat) -> nat
    decreases x,
{
    if x == 0 {
        0
    } else {
        let p = isqrt_spec((x - 1) as nat);
        if (p + 1) * (p + 1) <= x {
            p + 1
        } else {
            p
        }
    }
}

/// `isqrt_spec` really is the integer square root.
pub proof fn lemma_isqrt_spec(x: nat)
    ensures
        is_sqrt(x as int, isqrt_spec(x) as int),
    decreases x,
{
    if x > 0 {
        lemma_isqrt_spec((x - 1) as nat);
        let p = isqrt_spec((x - 1) as nat);
        assert(p * p <= x - 1);
        if (p + 1) * (p + 1) <= x {
            assert((p + 2) * (p + 2) > x) by (nonlinear_arith)
                requires
                    p >= 0,
                    (x - 1) < (p + 1) * (p + 1),
            ;
        }
    }
}

/// Two integer square roots of the same value are equal.
pub proof fn lemma_isqrt_unique(x: int, a: int, b: int)
    requires
        is_sqrt(x, a),
        is_sqrt(x, b),
    ensures
        a == b,
{
    if a < b {
        assert((a + 1) * (a + 1) <= b * b) by (nonlinear_arith)
            requires
                0 <= a,
                0 <= b,
                a < b,
        ;
    }
    if b < a {
        assert((b + 1) * (b + 1) <= a * a) by (nonlinear_arith)
            requires
                0 <= a,
                0 <= b,
                b < a,
        ;
    }
}

/// Raw result of the fixed-point square root of a non-negative raw value.
pub open spec fn fx_sqrt(a: int) -> int {
    16 * (isqrt_spec(a as nat) as int)
}

/// The fixed-point square root of an in-range non-negative raw value stays
/// well inside the 32-bit range.
pub proof fn lemma_fx_sqrt_range(x: int)
    requires
        0 <= x <= i32::MAX,
    ensures
        0 <= fx_sqrt(x) <= 741440,
{
    lemma_isqrt_spec(x as nat);
    let r = isqrt_spec(x as nat) as int;
    if r > 46340 {
        assert(r * r > i32::MAX) by (nonlinear_arith)
            requires
                r >= 46341,
        ;
    }
}

/// The product of two 32-bit values fits comfortably inside 64 bits.
proof fn lemma_i32_prod_fits(a: int, b: int)
    requires
        i32::MIN <= a <= i32::MAX,
        i32::MIN <= b <= i32::MAX,
    ensures
        -0x4000_0000_0000_0000 <= a * b <= 0x4000_0000_0000_0000,
{
    assert(-0x4000_0000_0000_0000 <= a * b <= 0x4000_0000_0000_0000) by (nonlinear_arith)
        requires
            -0x8000_0000 <= a <= 0x7fff_ffff,
            -0x8000_0000 <= b <= 0x7fff_ffff,
    ;
}

/// Wraps a 64-bit intermediate to the centred 32-bit representative.
fn crop_i64(q: i64) -> (r: i32)
    requires
        q > i64::MIN,
    ensures
        r as int == crop32(q as int),
{
    let m: i64 = 0x1_0000_0000;
    let qm: i64 = if q >= 0 {
        q % m
    } else {
        let t: i64 = -q;
        let tm: i64 = t % m;
        proof {
            lemma_fundamental_div_mod(t as int, m as int);
            if tm == 0 {
                lemma_mod_multiples_vanish(-(t as int / m as int), 0, m as int);
                assert(q as int == m as int * (-(t as int / m as int)) + 0);
            } else {
                lemma_fundamental_div_mod_converse(
                    q as int,
                    m as int,
                    -(t as int / m as int) - 1,
                    m as int - tm as int,
                );
            }
        }
        if tm == 0 {
            0
        } else {
            m - tm
        }
    };
    if qm > 2147483647 {
        (qm - m) as i32
    } else {
        qm as i32
    }
}

/// Floor division of a 64-bit intermediate by 2^8.
fn floor_div_256(p: i64) -> (q: i64)
    requires
        i64::MIN + 256 < p,
    ensures
        q == p as int / 256,
{
    if p >= 0 {
        p / 256
    } else {
        let t: i64 = -p;
        let d: i64 = (t + 255) / 256;
        proof {
            lemma_fundamental_div_mod((t + 255) as int, 256);
            let r0 = (t + 255) as int % 256;
            lemma_fundamental_div_mod_converse(p as int, 256, -(d as int), 255 - r0);
        }
        -d
    }
}

/// A fixed-point world-coordinate number: `raw` / 256.
#[derive(Clone, Copy, PartialEq, Eq, Structural, Debug)]
pub struct Fx {
    pub raw: i32,
}

impl Fx {
    /// The number with the given raw representation.
    pub fn from_raw(raw: i32) -> (r: Fx)
        ensures
            r.raw == raw,
    {
        Fx { raw }
    }

    /// The number representing the integer `v`.
    pub fn from_int(v: i32) -> (r: Fx)
        ensures
            r.raw as int == fx_of_int(v as int),
    {
        let q: i64 = (v as i64) * 256;
        Fx { raw: crop_i64(q) }
    }

    /// Zero.
    pub fn zero() -> (r: Fx)
        ensures
            r.raw == 0,
    {
        Fx { raw: 0 }
    }

    /// Wrapping fixed-point addition.
    pub fn add(self, o: Fx) -> (r: Fx)
        ensures
            r.raw as int == fx_add(self.raw as int, o.raw as int),
    {
        let q: i64 = self.raw as i64 + o.raw as i64;
        Fx { raw: crop_i64(q) }
    }

    /// Wrapping fixed-point subtraction.
    pub fn sub(self, o: Fx) -> (r: Fx)
        ensures
            r.raw as int == fx_sub(self.raw as int, o.raw as int),
    {
        let q: i64 = self.raw as i64 - o.raw as i64;
        Fx { raw: crop_i64(q) }
    }

    /// Wrapping fixed-point negation.
    pub fn neg(self) -> (r: Fx)
        ensures
            r.raw as int == fx_neg(self.raw as int),
    {
        let q: i64 = -(self.raw as i64);
        Fx { raw: crop_i64(q) }
    }

    /// Wrapping fixed-point multiplication.
    pub fn mul(self, o: Fx) -> (r: Fx)
        ensures
            r.raw as int == fx_mul(self.raw as int, o.raw as int),
    {
        proof {
            lemma_i32_prod_fits(self.raw as int, o.raw as int);
        }
        let p: i64 = (self.raw as i64) * (o.raw as i64);
        let q: i64 = floor_div_256(p);
        Fx { raw: crop_i64(q) }
    }

    /// Wrapping multiplication by an integer.
    pub fn mul_int(self, k: i32) -> (r: Fx)
        ensures
            r.raw as int == fx_muli(self.raw as int, k as int),
    {
        proof {
            lemma_i32_prod_fits(self.raw as int, k as int);
        }
        let p: i64 = (self.raw as i64) * (k as i64);
        Fx { raw: crop_i64(p) }
    }

    /// Fixed-point division.  The divisor must be non-zero, and the one
    /// combination on which 32-bit division itself overflows is excluded.
    pub fn div(self, o: Fx) -> (r: Fx)
        requires
            o.raw != 0,
            !(crop32(self.raw as int * 256) == i32::MIN as int && o.raw == -1),
        ensures
            r.raw as int == fx_div(self.raw as int, o.raw as int),
    {
        let shifted: i32 = crop_i64((self.raw as i64) * 256);
        Fx { raw: tdiv_i32(shifted, o.raw) }
    }

    /// Division by an integer.  The divisor must be non-zero, and the one
    /// combination on which 32-bit division itself overflows is excluded.
    pub fn div_int(self, k: i32) -> (r: Fx)
        requires
            k != 0,
            !(self.raw == i32::MIN && k == -1),
        ensures
            r.raw as int == fx_divi(self.raw as int, k as int),
    {
        Fx { raw: tdiv_i32(self.raw, k) }
    }

    /// Integer part, rounding towards negative infinity.
    pub fn floor(self) -> (r: i32)
        ensures
            r as int == fx_floor(self.raw as int),
    {
        if self.raw >= 0 {
            self.raw / 256
        } else {
            let t: i64 = -(self.raw as i64);
            let d: i64 = (t + 255) / 256;
            proof {
                lemma_fundamental_div_mod((t + 255) as int, 256);
                let r0 = (t + 255) as int % 256;
                lemma_fundamental_div_mod_converse(
                    self.raw as int,
                    256,
                    -(d as int),
                    255 - r0,
                );
            }
            (-d) as i32
        }
    }

    /// Integer part, truncating towards zero.
    pub fn trunc(self) -> (r: i32)
        ensures
            r as int == tdiv(self.raw as int, 256),
    {
        if self.raw >= 0 {
            self.raw / 256
        } else {
            let t: i64 = -(self.raw as i64);
            let q: i64 = t / 256;
            proof {
                vstd::arithmetic::div_mod::lemma_div_nonincreasing(t as int, 256);
                vstd::arithmetic::div_mod::lemma_div_pos_is_pos(t as int, 256);
            }
            (-q) as i32
        }
    }

    /// Absolute value, wrapping at the minimum representable value.
    pub fn abs(self) -> (r: Fx)
        ensures
            r.raw as int == fx_abs(self.raw as int),
    {
        if self.raw == i32::MIN {
            self
        } else if self.raw < 0 {
            Fx { raw: -self.raw }
        } else {
            self
        }
    }

    /// Square root (by integer square root of the raw value), defined on
    /// non-negative numbers only.
    pub fn sqrt(self) -> (r: Fx)
        requires
            self.raw >= 0,
        ensures
            r.raw as int == fx_sqrt(self.raw as int),
            r.raw % 16 == 0,
            is_sqrt(self.raw as int, r.raw as int / 16),
    {
        let s: i32 = isqrt_i32(self.raw);
        proof {
            vstd::arithmetic::div_mod::lemma_div_multiples_vanish(s as int, 16);
            lemma_isqrt_spec(self.raw as nat);
            lemma_isqrt_unique(self.raw as int, s as int, isqrt_spec(self.raw as nat) as int);
        }
        Fx { raw: s * 16 }
    }

    /// True iff this number is strictly less than `o`.
    pub fn lt(self, o: Fx) -> (r: bool)
        ensures
            r == (self.raw < o.raw),
    {
        self.raw < o.raw
    }

    /// True iff this number is less than or equal to `o`.
    pub fn le(self, o: Fx) -> (r: bool)
        ensures
            r == (self.raw <= o.raw),
    {
        self.raw <= o.raw
    }
}

/// Floor division of a 32-bit value by a positive divisor.
pub fn div_floor_i32(a: i32, b: i32) -> (r: i32)
    requires
        b > 0,
    ensures
        r as int == a as int / b as int,
{
    if a >= 0 {
        a / b
    } else {
        let t: i64 = -(a as i64);
        let d: i64 = (t + (b as i64) - 1) / (b as i64);
        proof {
            let x = t as int + b as int - 1;
            lemma_fundamental_div_mod(x, b as int);
            vstd::arithmetic::div_mod::lemma_mod_division_less_than_divisor(x, b as int);
            let r0 = x % (b as int);
            assert(d as int == x / (b as int));
            assert(a as int == (-(d as int)) * (b as int) + (b as int - 1 - r0)) by {
                assert(x == (b as int) * (d as int) + r0);
                vstd::arithmetic::mul::lemma_mul_unary_negation(d as int, b as int);
                vstd::arithmetic::mul::lemma_mul_is_commutative(d as int, b as int);
            };
            lemma_fundamental_div_mod_converse(a as int, b as int, -(d as int), b as int - 1 - r0);
            vstd::arithmetic::div_mod::lemma_div_pos_is_pos(x, b as int);
            assert(d as int <= 0x8000_0000) by (nonlinear_arith)
                requires
                    (b as int) * (d as int) + r0 == x,
                    x <= 0x8000_0000 + (b as int) - 1,
                    r0 >= 0,
                    b as int >= 1,
                    d as int >= 0,
            ;
        }
        (-d) as i32
    }
}

/// A fixed-point timer value with 24 fractional bits: `raw` / 2^24.  Used
/// for the fractional progress of a moving platform along a path segment.
#[derive(Clone, Copy, PartialEq, Eq, Structural, Debug)]
pub struct Fx24 {
    pub raw: i32,
}

impl Fx24 {
    /// The timer with the given raw representation.
    pub fn from_raw(raw: i32) -> (r: Fx24)
        ensures
            r.raw == raw,
    {
        Fx24 { raw }
    }

    /// The zero timer.
    pub fn zero() -> (r: Fx24)
        ensures
            r.raw == 0,
    {
        Fx24 { raw: 0 }
    }

    /// Wrapping addition of two timer values.
    pub fn add(self, o: Fx24) -> (r: Fx24)
        ensures
            r.raw as int == fx_add(self.raw as int, o.raw as int),
    {
        let q: i64 = self.raw as i64 + o.raw as i64;
        Fx24 { raw: crop_i64(q) }
    }

    /// True iff the timer has reached one.
    pub fn ge_one(self) -> (r: bool)
        ensures
            r == (self.raw >= FX24_ONE),
    {
        self.raw >= FX24_ONE
    }

    /// The timer reduced by one.
    pub fn sub_one(self) -> (r: Fx24)
        ensures
            r.raw as int == fx_sub(self.raw as int, FX24_ONE as int),
    {
        let q: i64 = self.raw as i64 - FX24_ONE as i64;
        Fx24 { raw: crop_i64(q) }
    }

    /// One minus the timer.
    pub fn one_minus(self) -> (r: Fx24)
        ensures
            r.raw as int == fx_sub(FX24_ONE as int, self.raw as int),
    {
        let q: i64 = FX24_ONE as i64 - self.raw as i64;
        Fx24 { raw: crop_i64(q) }
    }

    /// The timer rebased to the world-coordinate format (16 fractional
    /// bits dropped, flooring).
    pub fn to_fx(self) -> (r: Fx)
        ensures
            r.raw as int == self.raw as int / 65536,
    {
        Fx { raw: div_floor_i32(self.raw, 65536) }
    }
}

/// 32-bit division truncating towards zero.
fn tdiv_i32(a: i32, b: i32) -> (r: i32)
    requires
        b != 0,
        !(a == i32::MIN && b == -1),
    ensures
        r as int == tdiv(a as int, b as int),
{
    let a64: i64 = a as i64;
    let b64: i64 = b as i64;
    let an: i64 = if a64 >= 0 {
        a64
    } else {
        -a64
    };
    let bn: i64 = if b64 >= 0 {
        b64
    } else {
        -b64
    };
    let qn: i64 = an / bn;
    proof {
        vstd::arithmetic::div_mod::lemma_div_nonincreasing(an as int, bn as int);
        vstd::arithmetic::div_mod::lemma_div_pos_is_pos(an as int, bn as int);
        if bn >= 2 {
            vstd::arithmetic::div_mod::lemma_div_is_ordered_by_denominator(an as int, 2, bn as int);
            assert(an as int / 2 <= 0x4000_0000);
        }
    }
    let q: i64 = if (a64 >= 0) == (b64 >= 0) {
        qn
    } else {
        -qn
    };
    q as i32
}

/// Integer square root of a non-negative 32-bit value.
fn isqrt_i32(x: i32) -> (r: i32)
    requires
        x >= 0,
    ensures
        is_sqrt(x as int, r as int),
        r <= 46340,
{
    let mut lo: i32 = 0;
    let mut hi: i32 = 46341;
    proof {
        assert((x as int) < 46341 * 46341);
    }
    while lo + 1 < hi
        invariant
            0 <= lo < hi <= 46341,
            lo * lo <= x,
            x < hi * hi,
        decreases hi - lo,
    {
        let mid: i32 = lo + (hi - lo) / 2;
        proof {
            lemma_i32_prod_fits(mid as int, mid as int);
        }
        if (mid as i64) * (mid as i64) <= x as i64 {
            lo = mid;
        } else {
            hi = mid;
        }
    }
    lo
}

} // verus!
