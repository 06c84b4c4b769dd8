//! Geometric primitives: circle, finite line segment and circular arc, each
//! with collision test, closest-point query, surface normal and penetration
//! ("overshoot") vector against a moving circle.
//!
//! Every contract pins the result to a spec-level model over the raw
//! fixed-point representations, in the same exact wrapping arithmetic the
//! executable code performs.

use vstd::prelude::*;
use crate::fixed::{
    crop32, fx_abs, fx_add, fx_div, fx_divi, fx_floor, fx_mul, fx_neg, fx_sqrt, fx_sub, Fx,
};
use crate::vec2::{cross_raw, dot_raw, fast_mag_raw, mag_sq_raw, Vec2};

verus! {

/// A circle collider: centre and radius.
#[derive(Clone, Copy, PartialEq, Eq, Structural, Debug)]
pub struct Circle {
    pub position: Vec2,
    pub radius: Fx,
}

/// A finite line-segment collider with its precomputed unit normal and
/// length.
#[derive(Clone, Copy, PartialEq, Eq, Structural, Debug)]
pub struct Line {
    pub start: Vec2,
    pub end: Vec2,
    pub normal: Vec2,
    pub length: Fx,
}

/// A circular-arc collider: the underlying circle plus two unit direction
/// vectors (relative to the circle's centre) bounding the angular span.
#[derive(Clone, Copy, PartialEq, Eq, Structural, Debug)]
pub struct Arc {
    pub circle: Circle,
    pub start_pos: Vec2,
    pub end_pos: Vec2,
}

/// Whether two circles touch or overlap: squared centre distance at most
/// the square of the radius sum.
pub open spec fn circle_collides_spec(c: Circle, o: Circle) -> bool {
    let d = fx_add(c.radius.raw as int, o.radius.raw as int);
    let dx = fx_sub(c.position.x.raw as int, o.position.x.raw as int);
    let dy = fx_sub(c.position.y.raw as int, o.position.y.raw as int);
    mag_sq_raw(dx, dy) <= fx_mul(d, d)
}

/// The approximate normalisation of `p` minus the circle's centre is
/// defined (its approximate magnitude is non-zero and the division cannot
/// overflow).
pub open spec fn circle_normal_ok(c: Circle, px: int, py: int) -> bool {
    let dx = fx_sub(px, c.position.x.raw as int);
    let dy = fx_sub(py, c.position.y.raw as int);
    let m = fast_mag_raw(dx, dy);
    m != 0 && !(crop32(dx * 256) == i32::MIN as int && m == -1) && !(crop32(dy * 256)
        == i32::MIN as int && m == -1)
}

/// Outward unit normal of the circle at (towards) the point `(px, py)`.
pub open spec fn circle_normal_spec(c: Circle, px: int, py: int) -> (int, int) {
    let dx = fx_sub(px, c.position.x.raw as int);
    let dy = fx_sub(py, c.position.y.raw as int);
    let m = fast_mag_raw(dx, dy);
    (fx_div(dx, m), fx_div(dy, m))
}

/// Closest point of the circle's boundary to `(px, py)`: centre plus radius
/// times the normal towards the point.
pub open spec fn circle_closest_spec(c: Circle, px: int, py: int) -> (int, int) {
    let n = circle_normal_spec(c, px, py);
    (
        fx_add(fx_mul(n.0, c.radius.raw as int), c.position.x.raw as int),
        fx_add(fx_mul(n.1, c.radius.raw as int), c.position.y.raw as int),
    )
}

/// Raw centre distance between a circle `c` and a circle `o`.
pub open spec fn circle_dist_spec(c: Circle, o: Circle) -> int {
    let dx = fx_sub(o.position.x.raw as int, c.position.x.raw as int);
    let dy = fx_sub(o.position.y.raw as int, c.position.y.raw as int);
    fx_sqrt(mag_sq_raw(dx, dy))
}

/// The squared centre distance did not wrap negative, so its square root
/// is defined.
pub open spec fn circle_dist_ok(c: Circle, o: Circle) -> bool {
    let dx = fx_sub(o.position.x.raw as int, c.position.x.raw as int);
    let dy = fx_sub(o.position.y.raw as int, c.position.y.raw as int);
    mag_sq_raw(dx, dy) >= 0
}

/// Penetration vector pushing circle `o` out of circle `c`: the normal at
/// `o`'s centre scaled by how far the radius sum exceeds the distance.
pub open spec fn circle_overshoot_spec(c: Circle, o: Circle) -> (int, int) {
    let m = fx_sub(fx_add(c.radius.raw as int, o.radius.raw as int), circle_dist_spec(c, o));
    let n = circle_normal_spec(c, o.position.x.raw as int, o.position.y.raw as int);
    (fx_mul(n.0, m), fx_mul(n.1, m))
}

impl Circle {
    /// True iff the two circles touch or overlap.
    pub fn collides_circle(&self, circle: &Circle) -> (r: bool)
        ensures
            r == circle_collides_spec(*self, *circle),
    {
        let distance = self.radius.add(circle.radius);
        self.position.sub(circle.position).mag_sq().le(distance.mul(distance))
    }

    /// True iff the circle touches the line segment.
    pub fn collides_line(&self, line: &Line) -> (r: bool)
        requires
            line_closest_ok(*line, self.position.x.raw as int, self.position.y.raw as int),
        ensures
            r == line_collides_spec(*line, *self),
    {
        line.collides_circle(self)
    }

    /// Outward unit normal at (towards) the given point.
    pub fn normal_point(&self, point: Vec2) -> (r: Vec2)
        requires
            circle_normal_ok(*self, point.x.raw as int, point.y.raw as int),
        ensures
            (r.x.raw as int, r.y.raw as int) == circle_normal_spec(
                *self,
                point.x.raw as int,
                point.y.raw as int,
            ),
    {
        point.sub(self.position).fast_normalise()
    }

    /// Closest point of the circle's boundary to the given point.
    pub fn closest_point(&self, point: Vec2) -> (r: Vec2)
        requires
            circle_normal_ok(*self, point.x.raw as int, point.y.raw as int),
        ensures
            (r.x.raw as int, r.y.raw as int) == circle_closest_spec(
                *self,
                point.x.raw as int,
                point.y.raw as int,
            ),
    {
        self.normal_point(point).scale(self.radius).add(self.position)
    }

    /// Penetration vector pushing `circle` out of `self`.
    #[verifier::rlimit(60)]
    pub fn overshoot_circle(&self, circle: &Circle) -> (r: Vec2)
        requires
            circle_dist_ok(*self, *circle),
            circle_normal_ok(*self, circle.position.x.raw as int, circle.position.y.raw as int),
        ensures
            (r.x.raw as int, r.y.raw as int) == circle_overshoot_spec(*self, *circle),
    {
        let distance = circle.position.sub(self.position).magnitude();
        let magnitude = self.radius.add(circle.radius).sub(distance);
        self.normal_point(circle.position).scale(magnitude)
    }
}

/// The interior branch of the segment's closest-point query is defined:
/// the integer part of the squared length is positive so the projection
/// can be divided through, and the division cannot overflow.
pub open spec fn line_closest_ok(l: Line, px: int, py: int) -> bool {
    let xx = fx_sub(l.end.x.raw as int, l.start.x.raw as int);
    let xy = fx_sub(l.end.y.raw as int, l.start.y.raw as int);
    let prx = fx_sub(px, l.start.x.raw as int);
    let pry = fx_sub(py, l.start.y.raw as int);
    let msq = fx_mul(l.length.raw as int, l.length.raw as int);
    let disc = dot_raw(xx, xy, prx, pry);
    let f = fx_floor(msq);
    (0 < disc < msq) ==> (f != 0 && !(fx_mul(xx, disc) == i32::MIN as int && f == -1) && !(fx_mul(
        xy,
        disc,
    ) == i32::MIN as int && f == -1))
}

/// Closest point of the segment to `(px, py)`: the projection of the point
/// onto the segment's direction, clamped to the two endpoints.
pub open spec fn line_closest_spec(l: Line, px: int, py: int) -> (int, int) {
    let xx = fx_sub(l.end.x.raw as int, l.start.x.raw as int);
    let xy = fx_sub(l.end.y.raw as int, l.start.y.raw as int);
    let prx = fx_sub(px, l.start.x.raw as int);
    let pry = fx_sub(py, l.start.y.raw as int);
    let msq = fx_mul(l.length.raw as int, l.length.raw as int);
    let disc = dot_raw(xx, xy, prx, pry);
    if disc <= 0 {
        (l.start.x.raw as int, l.start.y.raw as int)
    } else if disc >= msq {
        (l.end.x.raw as int, l.end.y.raw as int)
    } else {
        let f = fx_floor(msq);
        (
            fx_add(l.start.x.raw as int, fx_divi(fx_mul(xx, disc), f)),
            fx_add(l.start.y.raw as int, fx_divi(fx_mul(xy, disc), f)),
        )
    }
}

/// Whether the circle touches the segment: squared distance from the
/// closest point to the centre at most the squared radius.
pub open spec fn line_collides_spec(l: Line, c: Circle) -> bool {
    let cp = line_closest_spec(l, c.position.x.raw as int, c.position.y.raw as int);
    let dx = fx_sub(cp.0, c.position.x.raw as int);
    let dy = fx_sub(cp.1, c.position.y.raw as int);
    mag_sq_raw(dx, dy) <= fx_mul(c.radius.raw as int, c.radius.raw as int)
}

/// Signed perpendicular distance term of the two-point line-distance
/// formula, before division by the length.
pub open spec fn line_dist_num_spec(l: Line, px: int, py: int) -> int {
    let x1 = l.start.x.raw as int;
    let y1 = l.start.y.raw as int;
    let x2 = l.end.x.raw as int;
    let y2 = l.end.y.raw as int;
    fx_add(
        fx_sub(fx_mul(fx_sub(y2, y1), px), fx_mul(fx_sub(x2, x1), py)),
        fx_sub(fx_mul(x2, y1), fx_mul(y2, x1)),
    )
}

/// Penetration vector pushing the circle out of the segment: the segment's
/// unit normal scaled by how far the radius exceeds the perpendicular
/// distance of the centre.
pub open spec fn line_overshoot_spec(l: Line, c: Circle) -> (int, int) {
    let dist = fx_div(
        fx_abs(line_dist_num_spec(l, c.position.x.raw as int, c.position.y.raw as int)),
        l.length.raw as int,
    );
    let amount = fx_sub(c.radius.raw as int, dist);
    (fx_mul(l.normal.x.raw as int, amount), fx_mul(l.normal.y.raw as int, amount))
}

/// The division by the segment length in the overshoot is defined.
pub open spec fn line_overshoot_ok(l: Line, c: Circle) -> bool {
    let n = fx_abs(line_dist_num_spec(l, c.position.x.raw as int, c.position.y.raw as int));
    l.length.raw != 0 && !(crop32(n * 256) == i32::MIN as int && l.length.raw == -1)
}

impl Line {
    /// True iff the circle touches the segment.
    pub fn collides_circle(&self, circle: &Circle) -> (r: bool)
        requires
            line_closest_ok(*self, circle.position.x.raw as int, circle.position.y.raw as int),
        ensures
            r == line_collides_spec(*self, *circle),
    {
        let closest_point = self.closest_point(circle.position);
        let rsq = circle.radius.mul(circle.radius);
        closest_point.sub(circle.position).mag_sq().le(rsq)
    }

    /// Penetration vector pushing the circle out of the segment.
    pub fn overshoot_circle(&self, circle: &Circle) -> (r: Vec2)
        requires
            line_overshoot_ok(*self, *circle),
        ensures
            (r.x.raw as int, r.y.raw as int) == line_overshoot_spec(*self, *circle),
    {
        let x1 = self.start.x;
        let x2 = self.end.x;
        let x0 = circle.position.x;

        let y1 = self.start.y;
        let y2 = self.end.y;
        let y0 = circle.position.y;

        let numerator = y2.sub(y1).mul(x0).sub(x2.sub(x1).mul(y0)).add(
            x2.mul(y1).sub(y2.mul(x1)),
        );
        let distance = numerator.abs().div(self.length);

        let amount = circle.radius.sub(distance);
        self.normal.scale(amount)
    }

    /// Closest point of the segment to the given point.
    pub fn closest_point(&self, point: Vec2) -> (r: Vec2)
        requires
            line_closest_ok(*self, point.x.raw as int, point.y.raw as int),
        ensures
            (r.x.raw as int, r.y.raw as int) == line_closest_spec(
                *self,
                point.x.raw as int,
                point.y.raw as int,
            ),
    {
        let x = self.end.sub(self.start);
        let p = point.sub(self.start);

        let x_magnitude_sq = self.length.mul(self.length);

        let discriminant = x.dot(p);

        if discriminant.raw <= 0 {
            self.start
        } else if discriminant.raw >= x_magnitude_sq.raw {
            self.end
        } else {
            let offset = x.scale(discriminant).div_int(x_magnitude_sq.floor());
            self.start.add(offset)
        }
    }
}

/// Closest point of the arc to `(px, py)`: the closest point of the full
/// circle if it lies inside the angular span (tested by cross-product sign
/// comparisons), else whichever endpoint direction is closer by dot
/// product.
pub open spec fn arc_closest_spec(a: Arc, px: int, py: int) -> (int, int) {
    let cp = circle_closest_spec(a.circle, px, py);
    let ccx = fx_sub(cp.0, a.circle.position.x.raw as int);
    let ccy = fx_sub(cp.1, a.circle.position.y.raw as int);
    let sx = a.start_pos.x.raw as int;
    let sy = a.start_pos.y.raw as int;
    let ex = a.end_pos.x.raw as int;
    let ey = a.end_pos.y.raw as int;
    let axc = cross_raw(sx, sy, ex, ey);
    let axb = cross_raw(sx, sy, ccx, ccy);
    let cxb = cross_raw(ex, ey, ccx, ccy);
    let cxa = cross_raw(ex, ey, sx, sy);
    let px0 = a.circle.position.x.raw as int;
    let py0 = a.circle.position.y.raw as int;
    if fx_mul(axb, axc) >= 0 && fx_mul(cxb, cxa) >= 0 {
        (fx_add(px0, ccx), fx_add(py0, ccy))
    } else if dot_raw(ccx, ccy, sx, sy) > dot_raw(ccx, ccy, ex, ey) {
        (
            fx_add(px0, fx_mul(sx, a.circle.radius.raw as int)),
            fx_add(py0, fx_mul(sy, a.circle.radius.raw as int)),
        )
    } else {
        (
            fx_add(px0, fx_mul(ex, a.circle.radius.raw as int)),
            fx_add(py0, fx_mul(ey, a.circle.radius.raw as int)),
        )
    }
}

/// Whether the circle touches the arc: squared distance from the arc's
/// closest point at most the squared radius, the same inclusive test the
/// circle and segment use.
pub open spec fn arc_collides_spec(a: Arc, c: Circle) -> bool {
    let cp = arc_closest_spec(a, c.position.x.raw as int, c.position.y.raw as int);
    let dx = fx_sub(cp.0, c.position.x.raw as int);
    let dy = fx_sub(cp.1, c.position.y.raw as int);
    mag_sq_raw(dx, dy) <= fx_mul(c.radius.raw as int, c.radius.raw as int)
}

/// Inward normal of the arc at a point: the negation of the underlying
/// circle's normal, because the arc curves away from its centre.
pub open spec fn arc_normal_spec(a: Arc, px: int, py: int) -> (int, int) {
    let n = circle_normal_spec(a.circle, px, py);
    (fx_neg(n.0), fx_neg(n.1))
}

/// Penetration vector pushing the circle out of the arc: the flipped
/// normal scaled by how far the circle reaches past the arc radius.
pub open spec fn arc_overshoot_spec(a: Arc, c: Circle) -> (int, int) {
    let m = fx_sub(
        fx_add(circle_dist_spec(a.circle, c), c.radius.raw as int),
        a.circle.radius.raw as int,
    );
    let n = arc_normal_spec(a, c.position.x.raw as int, c.position.y.raw as int);
    (fx_mul(n.0, m), fx_mul(n.1, m))
}

impl Arc {
    /// True iff the circle touches the arc.
    pub fn collides_circle(&self, circle: &Circle) -> (r: bool)
        requires
            circle_normal_ok(
                self.circle,
                circle.position.x.raw as int,
                circle.position.y.raw as int,
            ),
        ensures
            r == arc_collides_spec(*self, *circle),
    {
        let closest_point = self.closest_point(circle.position);
        let rsq = circle.radius.mul(circle.radius);
        closest_point.sub(circle.position).mag_sq().le(rsq)
    }

    /// Inward unit normal at (towards) the given point.
    pub fn normal_point(&self, position: Vec2) -> (r: Vec2)
        requires
            circle_normal_ok(self.circle, position.x.raw as int, position.y.raw as int),
        ensures
            (r.x.raw as int, r.y.raw as int) == arc_normal_spec(
                *self,
                position.x.raw as int,
                position.y.raw as int,
            ),
    {
        self.circle.normal_point(position).neg()
    }

    /// Penetration vector pushing the circle out of the arc.
    #[verifier::rlimit(60)]
    pub fn overshoot_circle(&self, circle: &Circle) -> (r: Vec2)
        requires
            circle_dist_ok(self.circle, *circle),
            circle_normal_ok(
                self.circle,
                circle.position.x.raw as int,
                circle.position.y.raw as int,
            ),
        ensures
            (r.x.raw as int, r.y.raw as int) == arc_overshoot_spec(*self, *circle),
    {
        let distance = circle.position.sub(self.circle.position).magnitude();
        let magnitude = distance.add(circle.radius).sub(self.circle.radius);
        self.normal_point(circle.position).scale(magnitude)
    }

    /// Closest point of the arc to the given point.
    pub fn closest_point(&self, point: Vec2) -> (r: Vec2)
        requires
            circle_normal_ok(self.circle, point.x.raw as int, point.y.raw as int),
        ensures
            (r.x.raw as int, r.y.raw as int) == arc_closest_spec(
                *self,
                point.x.raw as int,
                point.y.raw as int,
            ),
    {
        let closest_circle_point = self.circle.closest_point(point).sub(self.circle.position);

        let axc = self.start_pos.cross(self.end_pos);
        let axb = self.start_pos.cross(closest_circle_point);
        let cxb = self.end_pos.cross(closest_circle_point);
        let cxa = self.end_pos.cross(self.start_pos);

        let inside = axb.mul(axc).raw >= 0 && cxb.mul(cxa).raw >= 0;
        if inside {
            self.circle.position.add(closest_circle_point)
        } else if closest_circle_point.dot(self.start_pos).raw > closest_circle_point.dot(
            self.end_pos,
        ).raw {
            self.circle.position.add(self.start_pos.scale(self.circle.radius))
        } else {
            self.circle.position.add(self.end_pos.scale(self.circle.radius))
        }
    }
}

} // verus!
