//! Cross-checks of the fixed-point substrate against the reference
//! fixed-point crate, on positive and negative samples.

use agb_fixnum::{Num, Vector2D};
use radial_gravity::fixed::Fx;
use radial_gravity::vec2::Vec2;

type RefNum = Num<i32, 8>;

fn samples() -> Vec<i32> {
    vec![0, 1, -1, 256, -256, 300, -300, 25600, -25599, 123456, -654321, 7, 255, -255, 65536]
}

#[test]
fn add_matches_reference() {
    for &a in samples().iter() {
        for &b in samples().iter() {
            let ours = Fx::from_raw(a).add(Fx::from_raw(b)).raw;
            let theirs = (RefNum::from_raw(a) + RefNum::from_raw(b)).to_raw();
            assert_eq!(ours, theirs);
        }
    }
}

#[test]
fn sub_matches_reference() {
    for &a in samples().iter() {
        for &b in samples().iter() {
            let ours = Fx::from_raw(a).sub(Fx::from_raw(b)).raw;
            let theirs = (RefNum::from_raw(a) - RefNum::from_raw(b)).to_raw();
            assert_eq!(ours, theirs);
        }
    }
}

#[test]
fn mul_matches_reference() {
    for &a in samples().iter() {
        for &b in samples().iter() {
            let ours = Fx::from_raw(a).mul(Fx::from_raw(b)).raw;
            let theirs = (RefNum::from_raw(a) * RefNum::from_raw(b)).to_raw();
            assert_eq!(ours, theirs, "mul {} {}", a, b);
        }
    }
}

#[test]
fn div_matches_reference() {
    for &a in samples().iter() {
        for &b in samples().iter() {
            if b == 0 {
                continue;
            }
            let ours = Fx::from_raw(a).div(Fx::from_raw(b)).raw;
            let theirs = (RefNum::from_raw(a) / RefNum::from_raw(b)).to_raw();
            assert_eq!(ours, theirs, "div {} {}", a, b);
        }
    }
}

#[test]
fn floor_and_trunc_match_reference() {
    for &a in samples().iter() {
        assert_eq!(Fx::from_raw(a).floor(), RefNum::from_raw(a).floor());
        assert_eq!(Fx::from_raw(a).trunc(), RefNum::from_raw(a).trunc());
    }
}

#[test]
fn sqrt_matches_reference() {
    for &a in samples().iter() {
        if a < 0 {
            continue;
        }
        let ours = Fx::from_raw(a).sqrt().raw;
        let theirs = RefNum::from_raw(a).sqrt().to_raw();
        assert_eq!(ours, theirs, "sqrt {}", a);
    }
}

#[test]
fn magnitude_matches_reference() {
    let cases = [(3, 4), (0, 0), (-3, 4), (100, 100), (-77, -13)];
    for &(x, y) in cases.iter() {
        let ours = Vec2 { x: Fx::from_int(x), y: Fx::from_int(y) }.magnitude().raw;
        let v: Vector2D<RefNum> = (RefNum::new(x), RefNum::new(y)).into();
        assert_eq!(ours, v.magnitude().to_raw());
    }
}

#[test]
fn fast_normalise_matches_reference() {
    let cases = [(3, 4), (-3, 4), (100, 1), (-7, -9), (0, 5)];
    for &(x, y) in cases.iter() {
        let ours = Vec2 { x: Fx::from_int(x), y: Fx::from_int(y) }.fast_normalise();
        let v: Vector2D<RefNum> = (RefNum::new(x), RefNum::new(y)).into();
        let theirs = v.fast_normalise();
        assert_eq!(ours.x.raw, theirs.x.to_raw(), "fastnorm x {} {}", x, y);
        assert_eq!(ours.y.raw, theirs.y.to_raw(), "fastnorm y {} {}", x, y);
    }
}
