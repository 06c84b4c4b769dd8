//! Geometry behaviour on concrete values: circle collision symmetry, the
//! segment closest-point clamps, arc span classification at and opposite
//! the span, and exact removal of inward velocity on a flat surface.

use radial_gravity::collider::{Collider, ColliderKind, ColliderTag};
use radial_gravity::fixed::Fx;
use radial_gravity::geom::{Arc, Circle, Line};
use radial_gravity::player::{
    Camera, DashState, GamePart, GroundState, JumpState, Orientation, Player, PlayerFacing,
    PlayerState,
};
use radial_gravity::vec2::Vec2;

fn v(x: i32, y: i32) -> Vec2 {
    Vec2 { x: Fx::from_int(x), y: Fx::from_int(y) }
}

fn vraw(x: i32, y: i32) -> Vec2 {
    Vec2 { x: Fx::from_raw(x), y: Fx::from_raw(y) }
}

#[test]
fn circle_collision_is_symmetric_and_matches_distance() {
    let a = Circle { position: v(0, 0), radius: Fx::from_int(5) };
    let b = Circle { position: v(8, 0), radius: Fx::from_int(4) };
    let c = Circle { position: v(100, 0), radius: Fx::from_int(4) };

    // touching within radius sum 9 at distance 8
    assert!(a.collides_circle(&b));
    assert!(b.collides_circle(&a));
    // far beyond radius sum at distance 100
    assert!(!a.collides_circle(&c));
    assert!(!c.collides_circle(&a));
}

#[test]
fn line_closest_point_clamps_to_endpoints() {
    let line = Line {
        start: v(0, 0),
        end: v(10, 0),
        normal: vraw(0, -256),
        length: Fx::from_int(10),
    };
    // beyond the start: clamped to the start
    assert_eq!(line.closest_point(v(-5, 3)), v(0, 0));
    // beyond the end: clamped to the end
    assert_eq!(line.closest_point(v(20, -2)), v(10, 0));
    // interior: the perpendicular projection
    assert_eq!(line.closest_point(v(5, -3)), v(5, 0));
}

#[test]
fn arc_point_at_start_dir_is_in_span() {
    // quarter arc from +x to +y around a circle of radius 2
    let arc = Arc {
        circle: Circle { position: v(100, 50), radius: Fx::from_int(2) },
        start_pos: vraw(256, 0),
        end_pos: vraw(0, 256),
    };
    // a point along the start direction projects onto the full circle and
    // stays inside the angular span: the closest point keeps the start
    // direction (534 raw is the approximately-normalised radius)
    let p = arc.circle.position.add(vraw(512, 0));
    let cp = arc.closest_point(p);
    assert_eq!(cp, arc.circle.position.add(vraw(534, 0)));
}

#[test]
fn arc_collision_includes_exact_tangency() {
    // a circle whose squared distance from the arc's closest point equals
    // its squared radius exactly: the inclusive test counts the touch
    let arc = Arc {
        circle: Circle { position: v(0, 0), radius: Fx::from_int(2) },
        start_pos: vraw(256, 0),
        end_pos: vraw(0, 256),
    };
    let touching = Circle { position: vraw(512, 0), radius: Fx::from_raw(16) };
    assert!(arc.collides_circle(&touching));
}

#[test]
fn arc_point_opposite_span_is_clamped_to_an_endpoint() {
    let arc = Arc {
        circle: Circle { position: v(100, 50), radius: Fx::from_int(2) },
        start_pos: vraw(256, 0),
        end_pos: vraw(0, 256),
    };
    // diametrically opposite the span midpoint: classified outside and
    // clamped to the endpoint direction (here the end, radius 2 = 512 raw)
    let p = arc.circle.position.add(vraw(-512, -512));
    let cp = arc.closest_point(p);
    assert_eq!(cp, arc.circle.position.add(vraw(0, 512)));
}

#[test]
fn resolving_against_flat_line_removes_inward_velocity() {
    let line = Line {
        start: v(-10, 0),
        end: v(10, 0),
        normal: vraw(0, -256),
        length: Fx::from_int(20),
    };
    let colliders = vec![Collider {
        kind: ColliderKind::Line(line),
        tag: ColliderTag::CollisionOnly,
        velocity: vraw(0, 0),
    }];
    let mut gp = GamePart {
        camera: Camera { position: v(0, 0) },
        player: Player {
            angle: Orientation::identity(),
            surface_normal: vraw(0, 0),
            speed: v(0, 2),
            position: v(0, -4),
            facing: PlayerFacing::Right,
            ground_state: GroundState::InAir,
            ground_speed: Fx::from_raw(64),
            air_speed: Fx::from_raw(16),
            can_dash: false,
            dash_state: DashState::Available,
            max_jumps: 1,
            jumps_remaining: 1,
            jump_state: JumpState::Falling,
            jump_speed: Fx::from_raw(563),
            frame: 0,
        },
        last_gravity_source: None,
        player_state: PlayerState::Playing {
            remaining_pop_time: 0,
            pop_location: v(0, 0),
        },
    };
    let (max_angle, died) = gp.handle_collider_collisions(&colliders).unwrap();
    assert!(!died);
    assert!(max_angle.is_some());
    // no velocity component remains along the contact normal
    let normal = vraw(0, -256);
    assert_eq!(normal.dot(gp.player.speed).raw, 0);
}
