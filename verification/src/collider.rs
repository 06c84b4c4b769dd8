//! The collider union: a tagged geometric shape (circle, line segment or
//! arc) plus a classification tag and a velocity (zero for static
//! colliders, the per-tick displacement for moving-platform colliders).

use vstd::prelude::*;
use crate::fixed::{fx_add, Fx};
use crate::geom::{
    arc_closest_spec, arc_collides_spec, arc_normal_spec, arc_overshoot_spec, circle_closest_spec,
    circle_collides_spec, circle_dist_ok, circle_normal_ok, circle_normal_spec,
    circle_overshoot_spec, line_closest_ok, line_closest_spec, line_collides_spec,
    line_overshoot_ok, line_overshoot_spec, Arc, Circle, Line,
};
use crate::vec2::Vec2;

verus! {

/// The geometric kind of a collider.
#[derive(Clone, Copy, PartialEq, Eq, Structural, Debug)]
pub enum ColliderKind {
    Circle(Circle),
    Line(Line),
    Arc(Arc),
}

/// The classification of a collider: plain collision, collision that also
/// radiates gravity, or lethal contact.
#[derive(Clone, Copy, PartialEq, Eq, Structural, Debug)]
pub enum ColliderTag {
    CollisionOnly,
    CollisionGravitational,
    Killision,
}

impl ColliderTag {
    /// True iff the collider radiates gravity.
    pub fn is_gravitational(self) -> (r: bool)
        ensures
            r == (self == ColliderTag::CollisionGravitational),
    {
        self == ColliderTag::CollisionGravitational
    }

    /// True iff touching the collider kills the player.
    pub fn is_kills_player(self) -> (r: bool)
        ensures
            r == (self == ColliderTag::Killision),
    {
        self == ColliderTag::Killision
    }

    /// True iff the collider blocks movement.
    pub fn is_collision(self) -> (r: bool)
        ensures
            r == (self == ColliderTag::CollisionGravitational || self
                == ColliderTag::CollisionOnly),
    {
        self == ColliderTag::CollisionGravitational || self == ColliderTag::CollisionOnly
    }
}

/// A collider: geometric shape, classification tag and velocity.
#[derive(Clone, Copy, PartialEq, Eq, Structural, Debug)]
pub struct Collider {
    pub kind: ColliderKind,
    pub tag: ColliderTag,
    pub velocity: Vec2,
}

/// The collision test of the collider's shape is defined at the circle.
pub open spec fn collider_collides_ok(c: Collider, circle: Circle) -> bool {
    match c.kind {
        ColliderKind::Circle(_) => true,
        ColliderKind::Line(l) => line_closest_ok(
            l,
            circle.position.x.raw as int,
            circle.position.y.raw as int,
        ),
        ColliderKind::Arc(a) => circle_normal_ok(
            a.circle,
            circle.position.x.raw as int,
            circle.position.y.raw as int,
        ),
    }
}

/// Whether the collider's shape collides with the circle.
pub open spec fn collider_collides_spec(c: Collider, circle: Circle) -> bool {
    match c.kind {
        ColliderKind::Circle(s) => circle_collides_spec(s, circle),
        ColliderKind::Line(l) => line_collides_spec(l, circle),
        ColliderKind::Arc(a) => arc_collides_spec(a, circle),
    }
}

/// The surface normal of the collider's shape is defined at the circle.
pub open spec fn collider_normal_ok(c: Collider, circle: Circle) -> bool {
    match c.kind {
        ColliderKind::Circle(s) => circle_normal_ok(
            s,
            circle.position.x.raw as int,
            circle.position.y.raw as int,
        ),
        ColliderKind::Line(_) => true,
        ColliderKind::Arc(a) => circle_normal_ok(
            a.circle,
            circle.position.x.raw as int,
            circle.position.y.raw as int,
        ),
    }
}

/// Surface normal of the collider's shape at the circle's centre.
pub open spec fn collider_normal_spec(c: Collider, circle: Circle) -> (int, int) {
    match c.kind {
        ColliderKind::Circle(s) => circle_normal_spec(
            s,
            circle.position.x.raw as int,
            circle.position.y.raw as int,
        ),
        ColliderKind::Line(l) => (l.normal.x.raw as int, l.normal.y.raw as int),
        ColliderKind::Arc(a) => arc_normal_spec(
            a,
            circle.position.x.raw as int,
            circle.position.y.raw as int,
        ),
    }
}

/// The overshoot of the collider's shape is defined against the circle.
pub open spec fn collider_overshoot_ok(c: Collider, circle: Circle) -> bool {
    match c.kind {
        ColliderKind::Circle(s) => circle_dist_ok(s, circle) && circle_normal_ok(
            s,
            circle.position.x.raw as int,
            circle.position.y.raw as int,
        ),
        ColliderKind::Line(l) => line_overshoot_ok(l, circle),
        ColliderKind::Arc(a) => circle_dist_ok(a.circle, circle) && circle_normal_ok(
            a.circle,
            circle.position.x.raw as int,
            circle.position.y.raw as int,
        ),
    }
}

/// Penetration vector pushing the circle out of the collider's shape.
pub open spec fn collider_overshoot_spec(c: Collider, circle: Circle) -> (int, int) {
    match c.kind {
        ColliderKind::Circle(s) => circle_overshoot_spec(s, circle),
        ColliderKind::Line(l) => line_overshoot_spec(l, circle),
        ColliderKind::Arc(a) => arc_overshoot_spec(a, circle),
    }
}

/// The closest-point query of the collider's shape is defined at the point.
pub open spec fn collider_closest_ok(c: Collider, px: int, py: int) -> bool {
    match c.kind {
        ColliderKind::Circle(s) => circle_normal_ok(s, px, py),
        ColliderKind::Line(l) => line_closest_ok(l, px, py),
        ColliderKind::Arc(a) => circle_normal_ok(a.circle, px, py),
    }
}

/// Closest point of the collider's shape to the point.
pub open spec fn collider_closest_spec(c: Collider, px: int, py: int) -> (int, int) {
    match c.kind {
        ColliderKind::Circle(s) => circle_closest_spec(s, px, py),
        ColliderKind::Line(l) => line_closest_spec(l, px, py),
        ColliderKind::Arc(a) => arc_closest_spec(a, px, py),
    }
}

/// The collider's shape translated by `v`.
pub open spec fn kind_translated_spec(k: ColliderKind, v: Vec2) -> ColliderKind {
    match k {
        ColliderKind::Circle(s) => ColliderKind::Circle(
            Circle { position: vec_add_spec(s.position, v), radius: s.radius },
        ),
        ColliderKind::Line(l) => ColliderKind::Line(
            Line {
                start: vec_add_spec(l.start, v),
                end: vec_add_spec(l.end, v),
                normal: l.normal,
                length: l.length,
            },
        ),
        ColliderKind::Arc(a) => ColliderKind::Arc(
            Arc {
                circle: Circle {
                    position: vec_add_spec(a.circle.position, v),
                    radius: a.circle.radius,
                },
                start_pos: a.start_pos,
                end_pos: a.end_pos,
            },
        ),
    }
}

/// Component-wise vector addition at the spec level.
pub open spec fn vec_add_spec(a: Vec2, b: Vec2) -> Vec2 {
    Vec2 {
        x: Fx { raw: fx_add(a.x.raw as int, b.x.raw as int) as i32 },
        y: Fx { raw: fx_add(a.y.raw as int, b.y.raw as int) as i32 },
    }
}

impl Collider {
    /// True iff the collider's shape collides with the circle.
    pub fn collides_circle(&self, circle: &Circle) -> (r: bool)
        requires
            collider_collides_ok(*self, *circle),
        ensures
            r == collider_collides_spec(*self, *circle),
    {
        match &self.kind {
            ColliderKind::Circle(this) => this.collides_circle(circle),
            ColliderKind::Line(this) => this.collides_circle(circle),
            ColliderKind::Arc(this) => this.collides_circle(circle),
        }
    }

    /// Surface normal at the circle's centre.
    pub fn normal_circle(&self, circle: &Circle) -> (r: Vec2)
        requires
            collider_normal_ok(*self, *circle),
        ensures
            (r.x.raw as int, r.y.raw as int) == collider_normal_spec(*self, *circle),
    {
        match &self.kind {
            ColliderKind::Circle(this) => this.normal_point(circle.position),
            ColliderKind::Line(this) => this.normal,
            ColliderKind::Arc(this) => this.normal_point(circle.position),
        }
    }

    /// Penetration vector pushing the circle out of the collider.
    pub fn overshoot(&self, circle: &Circle) -> (r: Vec2)
        requires
            collider_overshoot_ok(*self, *circle),
        ensures
            (r.x.raw as int, r.y.raw as int) == collider_overshoot_spec(*self, *circle),
    {
        match &self.kind {
            ColliderKind::Circle(this) => this.overshoot_circle(circle),
            ColliderKind::Line(this) => this.overshoot_circle(circle),
            ColliderKind::Arc(this) => this.overshoot_circle(circle),
        }
    }

    /// Closest point of the collider's shape to the point.
    pub fn closest_point(&self, point: Vec2) -> (r: Vec2)
        requires
            collider_closest_ok(*self, point.x.raw as int, point.y.raw as int),
        ensures
            (r.x.raw as int, r.y.raw as int) == collider_closest_spec(
                *self,
                point.x.raw as int,
                point.y.raw as int,
            ),
    {
        match &self.kind {
            ColliderKind::Circle(this) => this.closest_point(point),
            ColliderKind::Line(this) => this.closest_point(point),
            ColliderKind::Arc(this) => this.closest_point(point),
        }
    }

    /// Translates the collider by `v` and records `v` as its velocity for
    /// this tick.
    pub fn apply_velocity(&mut self, v: Vec2)
        ensures
            final(self).kind == kind_translated_spec(old(self).kind, v),
            final(self).tag == old(self).tag,
            final(self).velocity == v,
    {
        let kind = match &self.kind {
            ColliderKind::Circle(s) => ColliderKind::Circle(
                Circle { position: s.position.add(v), radius: s.radius },
            ),
            ColliderKind::Line(l) => ColliderKind::Line(
                Line {
                    start: l.start.add(v),
                    end: l.end.add(v),
                    normal: l.normal,
                    length: l.length,
                },
            ),
            ColliderKind::Arc(a) => ColliderKind::Arc(
                Arc {
                    circle: Circle { position: a.circle.position.add(v), radius: a.circle.radius },
                    start_pos: a.start_pos,
                    end_pos: a.end_pos,
                },
            ),
        };
        self.kind = kind;
        self.velocity = v;
    }
}

/// An optional per-cell camera clamp: minimum and maximum camera positions
/// on each axis.
#[derive(Clone, Copy, PartialEq, Eq, Structural, Debug)]
pub struct ScrollStop {
    pub minimum_x: Option<Fx>,
    pub minimum_y: Option<Fx>,
    pub maximum_x: Option<Fx>,
    pub maximum_y: Option<Fx>,
}

impl Default for ScrollStop {
    /// The clamp that constrains nothing.
    fn default() -> (r: ScrollStop)
        ensures
            r.minimum_x is None,
            r.minimum_y is None,
            r.maximum_x is None,
            r.maximum_y is None,
    {
        ScrollStop { minimum_x: None, minimum_y: None, maximum_x: None, maximum_y: None }
    }
}

} // verus!
