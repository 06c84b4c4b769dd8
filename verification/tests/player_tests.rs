//! The player integrator on compiled levels: falling to a gravitational
//! circle and settling as grounded, and the lethal-contact recovery
//! transition to the nearest authored recovery point.

use radial_gravity::fixed::Fx;
use radial_gravity::level::{compile_level, AuthoredLevel};
use radial_gravity::lower::{AuthoredObject, AuthoredShape};
use radial_gravity::paths::Terrain;
use radial_gravity::player::{GamePart, GroundState, InputState, PlayerState};
use radial_gravity::vec2::Vec2;

fn v(x: i32, y: i32) -> Vec2 {
    Vec2 { x: Fx::from_int(x), y: Fx::from_int(y) }
}

fn circle_object(x: i32, y: i32, d: i32) -> AuthoredObject {
    AuthoredObject {
        name: String::new(),
        class: String::new(),
        position: v(x, y),
        radius: None,
        shape: AuthoredShape::Ellipse { width: Fx::from_int(d), height: Fx::from_int(d) },
    }
}

fn no_input() -> InputState {
    InputState { x_tri: 0, is_dash_pressed: false, jump_just_pressed: false, jump_pressed: false }
}

#[test]
fn player_falls_to_circle_and_settles_grounded() {
    // a single gravitational circle of radius 20 centred at (5, -5)
    let level = AuthoredLevel {
        colliders: vec![circle_object(-15, -25, 40)],
        colliders_no_gravity: vec![],
        killision: vec![],
        paths: vec![],
        player_start: v(0, -60),
        camera_start: v(0, -60),
        scroll_lines: vec![],
        planet_tiles: vec![],
        platform_tiles: vec![],
        items: vec![],
    };
    let m = compile_level(&level).unwrap();
    let t = Terrain { loaded_dynamic_colliders: vec![] };
    let mut gp = GamePart::new(&m);
    for _ in 0..600 {
        gp.update(&m, &t, no_input()).unwrap();
    }
    assert_eq!(gp.player.ground_state, GroundState::OnGround);
    // settled at roughly the circle's surface: the distance from the
    // centre is the radius plus the player's own radius, give or take
    let msq = gp.player.position.sub(v(5, -5)).mag_sq();
    let dist = msq.sqrt();
    assert!(dist.floor() >= 19 && dist.floor() <= 32, "distance {}", dist.floor());
    // residual speed is near zero
    assert!(gp.player.speed.mag_sq().raw < 256);
}

#[test]
fn lethal_contact_starts_recovery_at_nearest_point() {
    // a gravitational circle plus a lethal circle overlapping the spawn,
    // and two recovery point markers; the nearer one must be chosen
    let level = AuthoredLevel {
        colliders: vec![circle_object(-15, -25, 40)],
        colliders_no_gravity: vec![],
        killision: vec![
            circle_object(-5, -65, 10),
            AuthoredObject {
                name: String::new(),
                class: String::new(),
                position: v(0, -40),
                radius: None,
                shape: AuthoredShape::Point,
            },
            AuthoredObject {
                name: String::new(),
                class: String::new(),
                position: v(90, -40),
                radius: None,
                shape: AuthoredShape::Point,
            },
        ],
        paths: vec![],
        player_start: v(0, -60),
        camera_start: v(0, -60),
        scroll_lines: vec![],
        planet_tiles: vec![],
        platform_tiles: vec![],
        items: vec![],
    };
    let m = compile_level(&level).unwrap();
    let t = Terrain { loaded_dynamic_colliders: vec![] };
    let mut gp = GamePart::new(&m);
    gp.update(&m, &t, no_input()).unwrap();
    match gp.player_state {
        PlayerState::Recovering(rec) => {
            assert_eq!(rec.recover_to, v(0, -40));
            assert_eq!(rec.time, 0);
        },
        PlayerState::Playing { .. } => panic!("expected the recovery state"),
    }
}
