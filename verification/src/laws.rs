//! Laws of the geometry and the integrator, proved once and for all
//! inputs their statements admit.

use vstd::prelude::*;
use crate::fixed::{
    fx_add, fx_mul, fx_sub, lemma_crop32_bounds, lemma_crop32_congruence, lemma_crop32_exact,
};
use crate::geom::{circle_collides_spec, Circle};
use crate::vec2::{fx2, v_dot, v_scale, v_sub, Vec2};

verus! {

/// Two values congruent modulo 2^32 and both in the 32-bit range are
/// equal.
proof fn lemma_crop32_unique(x: int, y: int)
    requires
        x % 0x1_0000_0000 == y % 0x1_0000_0000,
        i32::MIN <= x <= i32::MAX,
        i32::MIN <= y <= i32::MAX,
    ensures
        x == y,
{
    let m = 0x1_0000_0000;
    vstd::arithmetic::div_mod::lemma_fundamental_div_mod(x, m);
    vstd::arithmetic::div_mod::lemma_fundamental_div_mod(y, m);
    assert(x - y == m * (x / m) - m * (y / m));
    assert(x - y == m * (x / m - y / m)) by (nonlinear_arith)
        requires
            x - y == m * (x / m) - m * (y / m),
    ;
    if x / m - y / m >= 1 {
        assert(x - y >= m) by (nonlinear_arith)
            requires
                x - y == m * (x / m - y / m),
                x / m - y / m >= 1,
                m > 0,
        ;
    }
    if x / m - y / m <= -1 {
        assert(x - y <= -m) by (nonlinear_arith)
            requires
                x - y == m * (x / m - y / m),
                x / m - y / m <= -1,
                m > 0,
        ;
    }
}

/// A wrapped difference and its reverse are wrapped negations of each
/// other, and their fixed-point squares coincide.
proof fn lemma_sub_square_symmetric(a: int, b: int)
    requires
        i32::MIN <= a <= i32::MAX,
        i32::MIN <= b <= i32::MAX,
    ensures
        fx_mul(fx_sub(a, b), fx_sub(a, b)) == fx_mul(fx_sub(b, a), fx_sub(b, a)),
{
    let m = 0x1_0000_0000;
    let u = fx_sub(a, b);
    let v = fx_sub(b, a);
    lemma_crop32_bounds(a - b);
    lemma_crop32_bounds(b - a);
    lemma_crop32_congruence(a - b);
    lemma_crop32_congruence(b - a);
    vstd::arithmetic::div_mod::lemma_add_mod_noop(a - b, b - a, m);
    assert((u + v) % m == 0) by {
        vstd::arithmetic::div_mod::lemma_add_mod_noop(u, v, m);
        vstd::arithmetic::div_mod::lemma_mod_self_0(m);
        vstd::arithmetic::div_mod::lemma_small_mod(0nat, m as nat);
    };
    if u == i32::MIN as int {
        assert(v % m == (i32::MIN as int) % m) by {
            vstd::arithmetic::div_mod::lemma_mod_add_multiples_vanish(u, m);
            assert((u + v) % m == 0);
            vstd::arithmetic::div_mod::lemma_add_mod_noop(u, v, m);
        };
        lemma_crop32_unique(v, i32::MIN as int);
        assert(v == u);
    } else {
        assert(v % m == (-u) % m) by {
            vstd::arithmetic::div_mod::lemma_add_mod_noop(u, v, m);
            vstd::arithmetic::div_mod::lemma_add_mod_noop(u, -u, m);
            vstd::arithmetic::div_mod::lemma_mod_self_0(m);
            vstd::arithmetic::div_mod::lemma_small_mod(0nat, m as nat);
        };
        lemma_crop32_unique(v, -u);
        assert(v == -u);
        assert(v * v == u * u) by (nonlinear_arith)
            requires
                v == -u,
        ;
    }
}

/// Whether two circles collide does not depend on their order: the
/// collision test is symmetric, for every pair of circles.
pub proof fn lemma_circle_collides_symmetric(a: Circle, b: Circle)
    ensures
        circle_collides_spec(a, b) == circle_collides_spec(b, a),
{
    lemma_sub_square_symmetric(a.position.x.raw as int, b.position.x.raw as int);
    lemma_sub_square_symmetric(a.position.y.raw as int, b.position.y.raw as int);
    assert(fx_add(a.radius.raw as int, b.radius.raw as int) == fx_add(
        b.radius.raw as int,
        a.radius.raw as int,
    ));
}

/// On circles whose centre distances and radius sum stay inside the
/// wrap-free window, the collision test agrees with the brute-force
/// distance check over exact integers: the floored square of the centre
/// distance against the floored square of the radius sum.
pub proof fn lemma_circle_collides_brute_force(a: Circle, b: Circle)
    requires
        -524287 <= a.position.x.raw - b.position.x.raw <= 524287,
        -524287 <= a.position.y.raw - b.position.y.raw <= 524287,
        0 <= a.radius.raw + b.radius.raw <= 524287,
    ensures
        circle_collides_spec(a, b) == {
            let dx = a.position.x.raw - b.position.x.raw;
            let dy = a.position.y.raw - b.position.y.raw;
            let d = a.radius.raw + b.radius.raw;
            (dx * dx) / 256 + (dy * dy) / 256 <= (d * d) / 256
        },
{
    let dx = a.position.x.raw - b.position.x.raw;
    let dy = a.position.y.raw - b.position.y.raw;
    let d = a.radius.raw + b.radius.raw;
    lemma_crop32_exact(dx);
    lemma_crop32_exact(dy);
    lemma_crop32_exact(d);
    assert(0 <= dx * dx <= 524287 * 524287 && 0 <= dy * dy <= 524287 * 524287 && 0 <= d * d
        <= 524287 * 524287) by (nonlinear_arith)
        requires
            -524287 <= dx <= 524287,
            -524287 <= dy <= 524287,
            0 <= d <= 524287,
    ;
    vstd::arithmetic::div_mod::lemma_div_pos_is_pos(dx * dx, 256);
    vstd::arithmetic::div_mod::lemma_div_pos_is_pos(dy * dy, 256);
    vstd::arithmetic::div_mod::lemma_div_pos_is_pos(d * d, 256);
    vstd::arithmetic::div_mod::lemma_div_is_ordered(dx * dx, (524287 * 524287) as int, 256);
    vstd::arithmetic::div_mod::lemma_div_is_ordered(dy * dy, (524287 * 524287) as int, 256);
    vstd::arithmetic::div_mod::lemma_div_is_ordered(d * d, (524287 * 524287) as int, 256);
    lemma_crop32_exact((dx * dx) / 256);
    lemma_crop32_exact((dy * dy) / 256);
    lemma_crop32_exact((d * d) / 256);
    lemma_crop32_exact((dx * dx) / 256 + (dy * dy) / 256);
}

/// Removing the inward velocity component along an exactly-axis-aligned
/// unit surface normal leaves zero velocity along that normal: resolving
/// the player against such a surface ends the tick with no speed into it.
pub proof fn lemma_velocity_removal_axis(n: Vec2, s: Vec2)
    requires
        (n.x.raw == 0 && (n.y.raw == 256 || n.y.raw == -256)) || (n.y.raw == 0 && (n.x.raw == 256
            || n.x.raw == -256)),
        -4194304 <= s.x.raw <= 4194304,
        -4194304 <= s.y.raw <= 4194304,
    ensures
        v_dot(n, v_sub(s, v_scale(n, fx2(v_dot(n, s))))) == 0,
{
    let nx = n.x.raw as int;
    let ny = n.y.raw as int;
    let sx = s.x.raw as int;
    let sy = s.y.raw as int;
    lemma_axis_mul(nx, sx);
    lemma_axis_mul(nx, sy);
    lemma_axis_mul(ny, sx);
    lemma_axis_mul(ny, sy);
    let d = v_dot(n, s);
    lemma_crop32_bounds(0);
    if nx == 0 {
        assert(fx_mul(nx, sx) == 0) by {
            lemma_crop32_exact(0);
        };
        let dd = fx_mul(ny, sy);
        assert(d == fx_add(0, dd));
        lemma_crop32_bounds((ny * sy) / 256);
        lemma_crop32_exact(dd);
        let s2 = v_sub(s, v_scale(n, fx2(d)));
        assert(s2.y.raw as int == fx_sub(sy, fx_mul(ny, d)));
        if ny == 256 {
            assert((ny * sy) / 256 == sy) by {
                vstd::arithmetic::div_mod::lemma_div_multiples_vanish(sy, 256);
            };
            assert(dd == sy && d == sy);
            lemma_axis_mul(ny, d);
            assert((ny * d) / 256 == d) by {
                vstd::arithmetic::div_mod::lemma_div_multiples_vanish(d, 256);
            };
            lemma_crop32_exact(d);
            assert(s2.y.raw as int == fx_sub(sy, sy));
            lemma_crop32_exact(0);
            assert(s2.y.raw as int == 0);
            assert(fx_mul(ny, 0) == 0) by {
                lemma_crop32_exact(0);
            };
            assert(fx_mul(nx, s2.x.raw as int) == 0) by {
                lemma_crop32_exact(0);
            };
        } else {
            assert((ny * sy) / 256 == -sy) by {
                vstd::arithmetic::div_mod::lemma_div_multiples_vanish(-sy, 256);
                assert(ny * sy == 256 * (-sy));
            };
            assert(dd == -sy && d == -sy);
            lemma_axis_mul(ny, d);
            assert((ny * d) / 256 == -d) by {
                vstd::arithmetic::div_mod::lemma_div_multiples_vanish(-d, 256);
                assert(ny * d == 256 * (-d));
            };
            lemma_crop32_exact(-d);
            assert(s2.y.raw as int == fx_sub(sy, -d));
            lemma_crop32_exact(sy + d);
            assert(s2.y.raw as int == 0);
            assert(fx_mul(ny, 0) == 0) by {
                lemma_crop32_exact(0);
            };
            assert(fx_mul(nx, s2.x.raw as int) == 0) by {
                lemma_crop32_exact(0);
            };
        }
        assert(v_dot(n, s2) == fx_add(0, 0));
        lemma_crop32_exact(0);
    } else {
        assert(fx_mul(ny, sy) == 0) by {
            lemma_crop32_exact(0);
        };
        let dd = fx_mul(nx, sx);
        assert(d == fx_add(dd, 0));
        lemma_crop32_bounds((nx * sx) / 256);
        lemma_crop32_exact(dd);
        let s2 = v_sub(s, v_scale(n, fx2(d)));
        assert(s2.x.raw as int == fx_sub(sx, fx_mul(nx, d)));
        if nx == 256 {
            assert((nx * sx) / 256 == sx) by {
                vstd::arithmetic::div_mod::lemma_div_multiples_vanish(sx, 256);
            };
            assert(dd == sx && d == sx);
            lemma_axis_mul(nx, d);
            assert((nx * d) / 256 == d) by {
                vstd::arithmetic::div_mod::lemma_div_multiples_vanish(d, 256);
            };
            lemma_crop32_exact(d);
            assert(s2.x.raw as int == fx_sub(sx, sx));
            lemma_crop32_exact(0);
            assert(s2.x.raw as int == 0);
            assert(fx_mul(nx, 0) == 0) by {
                lemma_crop32_exact(0);
            };
            assert(fx_mul(ny, s2.y.raw as int) == 0) by {
                lemma_crop32_exact(0);
            };
        } else {
            assert((nx * sx) / 256 == -sx) by {
                vstd::arithmetic::div_mod::lemma_div_multiples_vanish(-sx, 256);
                assert(nx * sx == 256 * (-sx));
            };
            assert(dd == -sx && d == -sx);
            lemma_axis_mul(nx, d);
            assert((nx * d) / 256 == -d) by {
                vstd::arithmetic::div_mod::lemma_div_multiples_vanish(-d, 256);
                assert(nx * d == 256 * (-d));
            };
            lemma_crop32_exact(-d);
            assert(s2.x.raw as int == fx_sub(sx, -d));
            lemma_crop32_exact(sx + d);
            assert(s2.x.raw as int == 0);
            assert(fx_mul(nx, 0) == 0) by {
                lemma_crop32_exact(0);
            };
            assert(fx_mul(ny, s2.y.raw as int) == 0) by {
                lemma_crop32_exact(0);
            };
        }
        assert(v_dot(n, s2) == fx_add(0, 0));
        lemma_crop32_exact(0);
    }
}

/// The fixed-point product by an axis component (0 or plus or minus one)
/// stays inside the wrap-free window for bounded operands.
proof fn lemma_axis_mul(k: int, t: int)
    requires
        k == 0 || k == 256 || k == -256,
        -2147483647 <= t <= 2147483647,
    ensures
        -2147483648 <= (k * t) / 256 <= 2147483647,
        k == 0 ==> fx_mul(k, t) == 0,
{
    if k == 0 {
        assert(k * t == 0) by (nonlinear_arith)
            requires
                k == 0,
        ;
        lemma_crop32_exact(0);
    } else if k == 256 {
        assert(k * t == 256 * t);
        vstd::arithmetic::div_mod::lemma_div_multiples_vanish(t, 256);
    } else {
        assert(k * t == 256 * (-t)) by (nonlinear_arith)
            requires
                k == -256,
        ;
        vstd::arithmetic::div_mod::lemma_div_multiples_vanish(-t, 256);
    }
}

} // verus!
