//! The compiled level: the immutable output of the spatial compiler, and
//! the O(1)-bounded runtime queries over it.
//!
//! The compiled map holds a flat collider array, a grid of cells each with
//! a bounded candidate list of collider indices, recovery points, scroll
//! stops, dynamic-path descriptors, background tile chunks and the spawn
//! and camera constants.  Every lookup structure is a vector sorted
//! strictly by its key, so the compiled form of a level is unique.

use vstd::prelude::*;
use crate::collider::{Collider, ColliderTag, ScrollStop};
use crate::fixed::{div_floor_i32, fx_sub, Fx24, Fx};
use crate::vec2::{mag_sq_raw, Vec2};

verus! {

/// Side of a static-collider grid cell, in world units.
pub const BOX_SIZE: i32 = 32;

/// Side of a scroll-stop grid cell, in world units.
pub const SCROLL_STOP_BOX: i32 = 128;

/// Side of a dynamic-path grid cell, in world units (larger, tuned for
/// path extents).
pub const PATH_BOX_SIZE: i32 = 256;

/// Which tile sheet a background tile comes from.
#[derive(Clone, Copy, PartialEq, Eq, Structural, Debug)]
pub enum MapTileSet {
    Planets,
    Planets2,
    Platforms,
}

/// One background tile: its index in the sheet and its flips.
#[derive(Clone, Copy, PartialEq, Eq, Structural, Debug)]
pub struct MapTileSetting {
    pub tile_id: u16,
    pub hflip: bool,
    pub vflip: bool,
    pub map_tile_set: MapTileSet,
}

/// The fully transparent tile.
pub fn blank_tile() -> (r: MapTileSetting)
    ensures
        r.tile_id == 1023,
        !r.hflip,
        !r.vflip,
        r.map_tile_set == MapTileSet::Planets,
{
    MapTileSetting { tile_id: 1023, hflip: false, vflip: false, map_tile_set: MapTileSet::Planets }
}

/// The kinds of power-up the player can collect.
#[derive(Clone, Copy, PartialEq, Eq, Structural, Debug)]
pub enum PowerUpKind {
    JumpBoost,
    Dash,
    DoubleJump,
}

/// An authored power-up placement.
#[derive(Clone, Copy, PartialEq, Eq, Structural, Debug)]
pub struct PowerUp {
    pub location: Vec2,
    pub kind: PowerUpKind,
}

/// One point of an authored path, with the per-tick timer increment for
/// the segment that starts at it.
#[derive(Clone, Copy, PartialEq, Eq, Structural, Debug)]
pub struct PathPoint {
    pub point: Vec2,
    pub incrementer: Fx24,
}

/// An authored moving-platform path: its points, the collider group that
/// travels along it, and whether it is a closed loop.
#[derive(Clone, PartialEq, Eq, Debug)]
pub struct PathDef {
    pub points: Vec<PathPoint>,
    pub colliders: Vec<Collider>,
    pub complete: bool,
}

/// One grid cell of the compiled map: its coordinate and the indices of
/// its candidate colliders in the flat collider array.
#[derive(Clone, PartialEq, Eq, Debug)]
pub struct CellEntry {
    pub cell_x: i32,
    pub cell_y: i32,
    pub candidates: Vec<usize>,
}

/// The scroll stop of one grid cell.
#[derive(Clone, PartialEq, Eq, Debug)]
pub struct ScrollStopEntry {
    pub cell_x: i32,
    pub cell_y: i32,
    pub stop: ScrollStop,
}

/// The paths whose surroundings cover one coarse grid cell.
#[derive(Clone, PartialEq, Eq, Debug)]
pub struct PathCellEntry {
    pub cell_x: i32,
    pub cell_y: i32,
    pub paths: Vec<usize>,
}

/// One 8-by-8 chunk of background tiles.
#[derive(Clone, PartialEq, Eq, Debug)]
pub struct TileChunk {
    pub cell_x: i32,
    pub cell_y: i32,
    pub tiles: Vec<MapTileSetting>,
}

/// The compiled level.
#[derive(Clone, PartialEq, Eq, Debug)]
pub struct CompiledMap {
    pub colliders: Vec<Collider>,
    pub cells: Vec<CellEntry>,
    pub recovery_points: Vec<Vec2>,
    pub scroll_stops: Vec<ScrollStopEntry>,
    pub paths: Vec<PathDef>,
    pub path_cells: Vec<PathCellEntry>,
    pub planet_tiles: Vec<TileChunk>,
    pub platform_tiles: Vec<TileChunk>,
    pub start_point: Vec2,
    pub camera_start: Vec2,
    pub power_ups: Vec<PowerUp>,
}

/// Strict lexicographic order on cell coordinates.
pub open spec fn key_lt(ax: int, ay: int, bx: int, by: int) -> bool {
    ax < bx || (ax == bx && ay < by)
}

/// The compiled map is well formed: every lookup table is strictly sorted
/// by its key, every candidate index points into the collider array, every
/// path index points into the path array, and every path has at least two
/// points and at least one collider.
pub open spec fn map_wf(m: CompiledMap) -> bool {
    &&& forall|i: int, j: int|
        0 <= i < j < m.cells.len() ==> key_lt(
            (#[trigger] m.cells[i]).cell_x as int,
            m.cells[i].cell_y as int,
            (#[trigger] m.cells[j]).cell_x as int,
            m.cells[j].cell_y as int,
        )
    &&& forall|i: int, j: int|
        0 <= i < m.cells.len() && 0 <= j < (#[trigger] m.cells[i]).candidates.len()
            ==> (#[trigger] m.cells[i].candidates[j]) < m.colliders.len()
    &&& forall|i: int, j: int|
        0 <= i < j < m.scroll_stops.len() ==> key_lt(
            (#[trigger] m.scroll_stops[i]).cell_x as int,
            m.scroll_stops[i].cell_y as int,
            (#[trigger] m.scroll_stops[j]).cell_x as int,
            m.scroll_stops[j].cell_y as int,
        )
    &&& forall|i: int, j: int|
        0 <= i < j < m.path_cells.len() ==> key_lt(
            (#[trigger] m.path_cells[i]).cell_x as int,
            m.path_cells[i].cell_y as int,
            (#[trigger] m.path_cells[j]).cell_x as int,
            m.path_cells[j].cell_y as int,
        )
    &&& forall|i: int, j: int|
        0 <= i < m.path_cells.len() && 0 <= j < (#[trigger] m.path_cells[i]).paths.len()
            ==> (#[trigger] m.path_cells[i].paths[j]) < m.paths.len()
    &&& forall|i: int|
        0 <= i < m.paths.len() ==> (#[trigger] m.paths[i]).points.len() >= 2 && m.paths[
            i
        ].colliders.len() >= 1
    &&& forall|i: int, k: int|
        0 <= i < m.paths.len() && 0 <= k < (#[trigger] m.paths[i]).points.len() ==> 0 <= (
        #[trigger] m.paths[i].points[k]).incrementer.raw <= crate::fixed::FX24_ONE
}

/// A cell's candidate list holds at least one gravitational collider.
pub open spec fn cell_has_gravitational(c: CellEntry, colliders: Seq<Collider>) -> bool {
    exists|j: int|
        0 <= j < c.candidates.len() && colliders[(#[trigger] c.candidates[j]) as int].tag
            == ColliderTag::CollisionGravitational
}

/// Every compiled cell's candidate list holds at least one gravitational
/// collider: the compiler's gravity-completeness invariant.
pub open spec fn map_gravity_complete(m: CompiledMap) -> bool {
    forall|i: int|
        0 <= i < m.cells.len() ==> cell_has_gravitational(#[trigger] m.cells[i], m.colliders@)
}

/// In a well-formed map, at most one compiled cell carries a given key.
pub proof fn lemma_cell_key_unique(m: CompiledMap, i: int, j: int)
    requires
        map_wf(m),
        0 <= i < m.cells.len(),
        0 <= j < m.cells.len(),
        m.cells[i].cell_x == m.cells[j].cell_x,
        m.cells[i].cell_y == m.cells[j].cell_y,
    ensures
        i == j,
{
}

/// In a well-formed map, at most one scroll-stop entry carries a given key.
pub proof fn lemma_scroll_key_unique(m: CompiledMap, i: int, j: int)
    requires
        map_wf(m),
        0 <= i < m.scroll_stops.len(),
        0 <= j < m.scroll_stops.len(),
        m.scroll_stops[i].cell_x == m.scroll_stops[j].cell_x,
        m.scroll_stops[i].cell_y == m.scroll_stops[j].cell_y,
    ensures
        i == j,
{
}

/// In a well-formed map, at most one path-cell entry carries a given key.
pub proof fn lemma_path_cell_key_unique(m: CompiledMap, i: int, j: int)
    requires
        map_wf(m),
        0 <= i < m.path_cells.len(),
        0 <= j < m.path_cells.len(),
        m.path_cells[i].cell_x == m.path_cells[j].cell_x,
        m.path_cells[i].cell_y == m.path_cells[j].cell_y,
    ensures
        i == j,
{
}

/// Raw squared distance between two points.
#[verifier::opaque]
pub open spec fn dist_sq_raw(a: Vec2, b: Vec2) -> int {
    mag_sq_raw(
        fx_sub(a.x.raw as int, b.x.raw as int),
        fx_sub(a.y.raw as int, b.y.raw as int),
    )
}

/// Floor division at the spec level (Euclidean division by a positive
/// divisor rounds towards negative infinity).
pub open spec fn div_floor_spec(a: int, b: int) -> int {
    a / b
}

impl CompiledMap {
    /// The index of the compiled cell for a world position, if that cell
    /// is in the map.  `None` outside the authored play area (a normal
    /// result, not an error).
    pub fn get_nearby(&self, x: i32, y: i32) -> (r: Option<usize>)
        ensures
            match r {
                Some(i) => i < self.cells.len() && self.cells[i as int].cell_x as int
                    == div_floor_spec(x as int, BOX_SIZE as int) && self.cells[
                    i as int
                ].cell_y as int == div_floor_spec(y as int, BOX_SIZE as int),
                None => forall|i: int|
                    0 <= i < self.cells.len() ==> !((#[trigger] self.cells[i]).cell_x as int
                        == div_floor_spec(x as int, BOX_SIZE as int) && self.cells[i].cell_y as int
                        == div_floor_spec(y as int, BOX_SIZE as int)),
            },
    {
        let cx = div_floor_i32(x, BOX_SIZE);
        let cy = div_floor_i32(y, BOX_SIZE);
        let mut i: usize = 0;
        while i < self.cells.len()
            invariant
                i <= self.cells.len(),
                cx as int == div_floor_spec(x as int, BOX_SIZE as int),
                cy as int == div_floor_spec(y as int, BOX_SIZE as int),
                forall|j: int|
                    0 <= j < i ==> !((#[trigger] self.cells[j]).cell_x == cx && self.cells[
                        j
                    ].cell_y == cy),
            decreases self.cells.len() - i,
        {
            if self.cells[i].cell_x == cx && self.cells[i].cell_y == cy {
                return Some(i);
            }
            i = i + 1;
        }
        None
    }

    /// The worst-case candidate-list length over all compiled cells: the
    /// compiler's tuning report for the grid cell size.
    pub fn max_candidate_count(&self) -> (r: usize)
        ensures
            self.cells@.len() == 0 ==> r == 0,
            self.cells@.len() > 0 ==> exists|i: int|
                0 <= i < self.cells@.len() && r == (#[trigger] self.cells@[i]).candidates@.len(),
            forall|i: int|
                0 <= i < self.cells@.len() ==> (#[trigger] self.cells@[i]).candidates@.len() <= r,
    {
        let mut r: usize = 0;
        let mut i: usize = 0;
        while i < self.cells.len()
            invariant
                i <= self.cells@.len(),
                i == 0 ==> r == 0,
                i > 0 ==> exists|j: int|
                    0 <= j < i && r == (#[trigger] self.cells@[j]).candidates@.len(),
                forall|j: int|
                    0 <= j < i ==> (#[trigger] self.cells@[j]).candidates@.len() <= r,
            decreases self.cells.len() - i,
        {
            let n = self.cells[i].candidates.len();
            if n > r || i == 0 {
                r = n;
            }
            i = i + 1;
        }
        r
    }

    /// The recovery point nearest the given position (the first one at the
    /// minimum squared distance).  The map must have at least one recovery
    /// point.
    pub fn get_recovery_point(&self, position: Vec2) -> (r: Vec2)
        requires
            self.recovery_points.len() >= 1,
        ensures
            exists|i: int|
                {
                    &&& 0 <= i < self.recovery_points.len()
                    &&& r == self.recovery_points[i]
                    &&& forall|j: int|
                        0 <= j < self.recovery_points.len() ==> dist_sq_raw(
                            #[trigger] self.recovery_points[j],
                            position,
                        ) >= dist_sq_raw(self.recovery_points[i], position)
                    &&& forall|j: int|
                        0 <= j < i ==> dist_sq_raw(
                            #[trigger] self.recovery_points[j],
                            position,
                        ) > dist_sq_raw(self.recovery_points[i], position)
                },
    {
        proof {
            reveal(dist_sq_raw);
        }
        let mut best: usize = 0;
        let mut best_d: i32 = self.recovery_points[0].sub(position).mag_sq().raw;
        let mut i: usize = 1;
        while i < self.recovery_points.len()
            invariant
                self.recovery_points.len() >= 1,
                0 <= best < i <= self.recovery_points.len(),
                best_d as int == dist_sq_raw(self.recovery_points[best as int], position),
                forall|j: int|
                    0 <= j < i ==> dist_sq_raw(#[trigger] self.recovery_points[j], position)
                        >= best_d as int,
                forall|j: int|
                    0 <= j < best ==> dist_sq_raw(#[trigger] self.recovery_points[j], position)
                        > best_d as int,
            decreases self.recovery_points.len() - i,
        {
            proof {
                reveal(dist_sq_raw);
            }
            let d = self.recovery_points[i].sub(position).mag_sq().raw;
            if d < best_d {
                best = i;
                best_d = d;
            }
            i = i + 1;
        }
        self.recovery_points[best]
    }

    /// The scroll stop active at a world position, if any.
    pub fn get_scroll_stop(&self, x: i32, y: i32) -> (r: Option<&ScrollStop>)
        ensures
            match r {
                Some(s) => exists|i: int|
                    0 <= i < self.scroll_stops.len() && (#[trigger] self.scroll_stops[i]).cell_x
                        as int == div_floor_spec(x as int, SCROLL_STOP_BOX as int)
                        && self.scroll_stops[i].cell_y as int == div_floor_spec(
                        y as int,
                        SCROLL_STOP_BOX as int,
                    ) && self.scroll_stops[i].stop == *s,
                None => forall|i: int|
                    0 <= i < self.scroll_stops.len() ==> !((#[trigger] self.scroll_stops[
                        i
                    ]).cell_x as int == div_floor_spec(x as int, SCROLL_STOP_BOX as int)
                        && self.scroll_stops[i].cell_y as int == div_floor_spec(
                        y as int,
                        SCROLL_STOP_BOX as int,
                    )),
            },
    {
        let cx = div_floor_i32(x, SCROLL_STOP_BOX);
        let cy = div_floor_i32(y, SCROLL_STOP_BOX);
        let mut i: usize = 0;
        while i < self.scroll_stops.len()
            invariant
                i <= self.scroll_stops.len(),
                cx as int == div_floor_spec(x as int, SCROLL_STOP_BOX as int),
                cy as int == div_floor_spec(y as int, SCROLL_STOP_BOX as int),
                forall|j: int|
                    0 <= j < i ==> !((#[trigger] self.scroll_stops[j]).cell_x == cx
                        && self.scroll_stops[j].cell_y == cy),
            decreases self.scroll_stops.len() - i,
        {
            if self.scroll_stops[i].cell_x == cx && self.scroll_stops[i].cell_y == cy {
                return Some(&self.scroll_stops[i].stop);
            }
            i = i + 1;
        }
        None
    }

    /// The indices of the paths whose surroundings cover the world
    /// position, or `None` when no path is near.
    pub fn get_paths(&self, x: i32, y: i32) -> (r: Option<&Vec<usize>>)
        ensures
            match r {
                Some(v) => exists|i: int|
                    0 <= i < self.path_cells.len() && (#[trigger] self.path_cells[i]).cell_x
                        as int == div_floor_spec(x as int, PATH_BOX_SIZE as int)
                        && self.path_cells[i].cell_y as int == div_floor_spec(
                        y as int,
                        PATH_BOX_SIZE as int,
                    ) && self.path_cells[i].paths == *v,
                None => forall|i: int|
                    0 <= i < self.path_cells.len() ==> !((#[trigger] self.path_cells[i]).cell_x
                        as int == div_floor_spec(x as int, PATH_BOX_SIZE as int)
                        && self.path_cells[i].cell_y as int == div_floor_spec(
                        y as int,
                        PATH_BOX_SIZE as int,
                    )),
            },
    {
        let cx = div_floor_i32(x, PATH_BOX_SIZE);
        let cy = div_floor_i32(y, PATH_BOX_SIZE);
        let mut i: usize = 0;
        while i < self.path_cells.len()
            invariant
                i <= self.path_cells.len(),
                cx as int == div_floor_spec(x as int, PATH_BOX_SIZE as int),
                cy as int == div_floor_spec(y as int, PATH_BOX_SIZE as int),
                forall|j: int|
                    0 <= j < i ==> !((#[trigger] self.path_cells[j]).cell_x == cx
                        && self.path_cells[j].cell_y == cy),
            decreases self.path_cells.len() - i,
        {
            if self.path_cells[i].cell_x == cx && self.path_cells[i].cell_y == cy {
                return Some(&self.path_cells[i].paths);
            }
            i = i + 1;
        }
        None
    }
}

/// The background tile chunk of the planet layer at a chunk coordinate,
/// or `None` for a fully transparent chunk.
pub fn get_planet_tile_chunk(m: &CompiledMap, x: i32, y: i32) -> (r: Option<&Vec<MapTileSetting>>)
    ensures
        match r {
            Some(v) => exists|i: int|
                0 <= i < m.planet_tiles.len() && (#[trigger] m.planet_tiles[i]).cell_x == x
                    && m.planet_tiles[i].cell_y == y && m.planet_tiles[i].tiles == *v,
            None => forall|i: int|
                0 <= i < m.planet_tiles.len() ==> !((#[trigger] m.planet_tiles[i]).cell_x == x
                    && m.planet_tiles[i].cell_y == y),
        },
{
    let mut i: usize = 0;
    while i < m.planet_tiles.len()
        invariant
            i <= m.planet_tiles.len(),
            forall|j: int|
                0 <= j < i ==> !((#[trigger] m.planet_tiles[j]).cell_x == x && m.planet_tiles[
                    j
                ].cell_y == y),
        decreases m.planet_tiles.len() - i,
    {
        if m.planet_tiles[i].cell_x == x && m.planet_tiles[i].cell_y == y {
            return Some(&m.planet_tiles[i].tiles);
        }
        i = i + 1;
    }
    None
}

/// The background tile chunk of the platform layer at a chunk coordinate,
/// or `None` for a fully transparent chunk.
pub fn get_platform_tile_chunk(m: &CompiledMap, x: i32, y: i32) -> (r: Option<
    &Vec<MapTileSetting>,
>)
    ensures
        match r {
            Some(v) => exists|i: int|
                0 <= i < m.platform_tiles.len() && (#[trigger] m.platform_tiles[i]).cell_x == x
                    && m.platform_tiles[i].cell_y == y && m.platform_tiles[i].tiles == *v,
            None => forall|i: int|
                0 <= i < m.platform_tiles.len() ==> !((#[trigger] m.platform_tiles[i]).cell_x == x
                    && m.platform_tiles[i].cell_y == y),
        },
{
    let mut i: usize = 0;
    while i < m.platform_tiles.len()
        invariant
            i <= m.platform_tiles.len(),
            forall|j: int|
                0 <= j < i ==> !((#[trigger] m.platform_tiles[j]).cell_x == x && m.platform_tiles[
                    j
                ].cell_y == y),
        decreases m.platform_tiles.len() - i,
    {
        if m.platform_tiles[i].cell_x == x && m.platform_tiles[i].cell_y == y {
            return Some(&m.platform_tiles[i].tiles);
        }
        i = i + 1;
    }
    None
}

} // verus!
