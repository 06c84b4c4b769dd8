//! The spatial compiler on a small authored level: determinism, gravity
//! completeness of every emitted cell, the out-of-range query, and the
//! moving-platform cycle.

use radial_gravity::collider::ColliderTag;
use radial_gravity::fixed::Fx;
use radial_gravity::level::{compile_level, AuthoredLevel, AuthoredMarker};
use radial_gravity::lower::{AuthoredObject, AuthoredPath, AuthoredShape};
use radial_gravity::paths::{update_terrain, Terrain};
use radial_gravity::vec2::Vec2;

fn v(x: i32, y: i32) -> Vec2 {
    Vec2 { x: Fx::from_int(x), y: Fx::from_int(y) }
}

fn circle_object(x: i32, y: i32, d: i32) -> AuthoredObject {
    AuthoredObject {
        name: String::new(),
        class: String::new(),
        position: v(x, y),
        radius: None,
        shape: AuthoredShape::Ellipse { width: Fx::from_int(d), height: Fx::from_int(d) },
    }
}

fn small_level() -> AuthoredLevel {
    AuthoredLevel {
        colliders: vec![circle_object(-15, -25, 40)],
        colliders_no_gravity: vec![],
        killision: vec![],
        paths: vec![],
        player_start: v(0, -60),
        camera_start: v(0, -60),
        scroll_lines: vec![],
        planet_tiles: vec![],
        platform_tiles: vec![],
        items: vec![],
    }
}

#[test]
fn compiling_twice_gives_identical_output() {
    let level = small_level();
    let a = compile_level(&level).unwrap();
    let b = compile_level(&level).unwrap();
    assert_eq!(a, b);
}

#[test]
fn every_emitted_cell_has_a_gravitational_candidate() {
    let m = compile_level(&small_level()).unwrap();
    assert!(m.cells.len() > 0);
    for cell in m.cells.iter() {
        let mut found = false;
        for &idx in cell.candidates.iter() {
            if m.colliders[idx].tag == ColliderTag::CollisionGravitational {
                found = true;
            }
        }
        assert!(found);
    }
}

#[test]
fn query_far_outside_geometry_is_empty() {
    let m = compile_level(&small_level()).unwrap();
    assert!(m.get_nearby(1000000, 1000000).is_none());
}

#[test]
fn closed_path_platform_cycles_back() {
    let mut level = small_level();
    level.colliders.push(AuthoredObject {
        name: String::from("plat"),
        class: String::from("path1"),
        position: v(-2, -2),
        radius: None,
        shape: AuthoredShape::Ellipse { width: Fx::from_int(4), height: Fx::from_int(4) },
    });
    level.paths.push(AuthoredPath {
        name: String::from("path1"),
        position: v(0, 0),
        points: vec![v(0, 0), v(4, 0)],
        closed: true,
        speed: Some(Fx::from_int(1)),
    });
    let m = compile_level(&level).unwrap();
    assert_eq!(m.paths.len(), 1);
    // the per-segment timer increment is a quarter: speed 1 over length 4
    assert_eq!(m.paths[0].points[0].incrementer.raw, 4194304);

    let mut t = Terrain { loaded_dynamic_colliders: vec![] };
    // load near the path, then advance one full cycle (two segments of
    // four ticks each) and another, and compare the states
    update_terrain(&mut t, &m, v(0, 0));
    assert_eq!(t.loaded_dynamic_colliders.len(), 1);
    let mut positions = vec![t.loaded_dynamic_colliders[0].current_position];
    for _ in 0..16 {
        update_terrain(&mut t, &m, v(0, 0));
        positions.push(t.loaded_dynamic_colliders[0].current_position);
    }
    // period of eight ticks: one full cycle returns exactly to the start
    for k in 0..8 {
        assert_eq!(positions[k], positions[k + 8]);
    }
    // the platform really moves, one world unit per moving tick (speed 1)
    assert_ne!(positions[1], positions[2]);
}
