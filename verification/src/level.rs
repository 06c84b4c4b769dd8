//! The spatial compiler's top level: takes one authored level and emits
//! the immutable compiled map — flat collider array, per-cell candidate
//! lists with the gravity-completeness invariant, recovery points, scroll
//! stops, dynamic path descriptors, background tile chunks, power-ups and
//! the spawn and camera constants.
//!
//! The output is a pure function of the authored level: every lookup table
//! is emitted in a canonical sorted order, so compiling the same level
//! twice yields identical values.

use vstd::prelude::*;
use crate::collider::{Collider, ColliderTag, ScrollStop};
use crate::compile::{cell_lt_exec, cells_sorted, reachable_cells, spacial_colliders};
use crate::fixed::{div_floor_i32, Fx, Fx24};
use crate::lower::{
    extract_from_layer, extract_paths, extract_recovery_points, AuthoredObject, AuthoredPath,
    ColliderGroup, CompileError, LoweredPath,
};
use crate::map_data::{
    key_lt, map_gravity_complete, map_wf, CellEntry, CompiledMap, MapTileSet, MapTileSetting,
    PathCellEntry, PathDef, PathPoint, PowerUp, PowerUpKind, ScrollStopEntry, TileChunk,
    PATH_BOX_SIZE, SCROLL_STOP_BOX,
};
use crate::vec2::Vec2;

verus! {

/// Which tile sheet an authored background tile comes from.
#[derive(Clone, Copy, PartialEq, Eq, Structural, Debug)]
pub enum GameTileSet {
    Planets,
    Platforms,
}

/// One authored background tile; the id 65535 marks an absent tile.
#[derive(Clone, Copy, PartialEq, Eq, Structural, Debug)]
pub struct TileSetting {
    pub tileset: GameTileSet,
    pub hflip: bool,
    pub vflip: bool,
    pub tile_id: u16,
}

/// One authored 16-by-16 tile chunk.
#[derive(Clone, PartialEq, Eq, Debug)]
pub struct GameTileChunkInput {
    pub chunk_x: i32,
    pub chunk_y: i32,
    pub tiles: Vec<TileSetting>,
}

/// A named point marker of the items layer.
#[derive(Clone, PartialEq, Eq, Debug)]
pub struct AuthoredMarker {
    pub name: String,
    pub position: Vec2,
}

/// One authored scroll-stop polyline: its origin and its relative points.
#[derive(Clone, PartialEq, Eq, Debug)]
pub struct ScrollLine {
    pub position: Vec2,
    pub points: Vec<Vec2>,
}

/// One authored level, organized into its named layers.
#[derive(Clone, PartialEq, Eq, Debug)]
pub struct AuthoredLevel {
    pub colliders: Vec<AuthoredObject>,
    pub colliders_no_gravity: Vec<AuthoredObject>,
    pub killision: Vec<AuthoredObject>,
    pub paths: Vec<AuthoredPath>,
    pub player_start: Vec2,
    pub camera_start: Vec2,
    pub scroll_lines: Vec<ScrollLine>,
    pub planet_tiles: Vec<GameTileChunkInput>,
    pub platform_tiles: Vec<GameTileChunkInput>,
    pub items: Vec<AuthoredMarker>,
}

/// Character-for-character string equality.
pub fn str_eq(a: &str, b: &str) -> (r: bool)
    ensures
        r == (a@ == b@),
{
    let la = a.unicode_len();
    let lb = b.unicode_len();
    if la != lb {
        proof {
            assert(a@.len() != b@.len());
        }
        return false;
    }
    let mut i: usize = 0;
    while i < la
        invariant
            la == a@.len(),
            la == b@.len(),
            i <= la,
            forall|j: int| 0 <= j < i ==> a@[j] == b@[j],
        decreases la - i,
    {
        if a.get_char(i) != b.get_char(i) {
            return false;
        }
        i = i + 1;
    }
    proof {
        assert(a@ =~= b@);
    }
    true
}

/// The power-up kind an item marker's name means, or nothing for an
/// unknown name.
pub open spec fn powerup_kind_of(name: Seq<char>) -> Option<PowerUpKind> {
    if name == "Jump Boost"@ {
        Some(PowerUpKind::JumpBoost)
    } else if name == "Dash"@ {
        Some(PowerUpKind::Dash)
    } else if name == "Double Jump"@ {
        Some(PowerUpKind::DoubleJump)
    } else {
        None
    }
}

/// Maps the authored item markers to power-ups by name; an unknown name
/// aborts the compilation.
pub fn get_powerups(items: &Vec<AuthoredMarker>) -> (r: Result<Vec<PowerUp>, CompileError>)
    ensures
        r is Err <==> exists|i: int|
            0 <= i < items@.len() && powerup_kind_of((#[trigger] items@[i]).name@) is None,
        match r {
            Ok(ps) => {
                &&& ps@.len() == items@.len()
                &&& forall|i: int|
                    0 <= i < ps@.len() ==> (#[trigger] ps@[i]).location == items@[i].position
                        && Some(ps@[i].kind) == powerup_kind_of(items@[i].name@)
            },
            Err(e) => e == CompileError::UnsupportedShape,
        },
{
    let mut out: Vec<PowerUp> = Vec::new();
    let mut i: usize = 0;
    while i < items.len()
        invariant
            i <= items@.len(),
            out@.len() == i,
            forall|j: int|
                0 <= j < i ==> (#[trigger] out@[j]).location == items@[j].position && Some(
                    out@[j].kind,
                ) == powerup_kind_of(items@[j].name@),
        decreases items.len() - i,
    {
        let name = items[i].name.as_str();
        let kind = if str_eq(name, "Jump Boost") {
            PowerUpKind::JumpBoost
        } else if str_eq(name, "Dash") {
            PowerUpKind::Dash
        } else if str_eq(name, "Double Jump") {
            PowerUpKind::DoubleJump
        } else {
            proof {
                assert(powerup_kind_of(items@[i as int].name@) is None);
            }
            return Err(CompileError::UnsupportedShape);
        };
        out.push(PowerUp { location: items[i].position, kind });
        i = i + 1;
    }
    proof {
        assert forall|j: int|
            0 <= j < items@.len() implies !(powerup_kind_of(
            (#[trigger] items@[j]).name@,
        ) is None) by {
            assert(Some(out@[j].kind) == powerup_kind_of(items@[j].name@));
        };
    }
    Ok(out)
}

/// Splits each 16-by-16 authored tile chunk into four 8-by-8 compiled
/// chunks, turning absent tiles into the transparent tile.
pub fn tiles_for_layer(chunks: &Vec<GameTileChunkInput>) -> (r: Vec<TileChunk>)
    ensures
        r@.len() == 4 * chunks@.len(),
        forall|i: int|
            0 <= i < r@.len() ==> (#[trigger] r@[i]).tiles@.len() == 64,
{
    let mut out: Vec<TileChunk> = Vec::new();
    let mut i: usize = 0;
    while i < chunks.len()
        invariant
            i <= chunks@.len(),
            out@.len() == 4 * i,
            forall|q: int|
                0 <= q < out@.len() ==> (#[trigger] out@[q]).tiles@.len() == 64,
        decreases chunks.len() - i,
    {
        let chunk = &chunks[i];
        let mut cy: i32 = 0;
        while cy < 2
            invariant
                i < chunks@.len(),
                0 <= cy <= 2,
                out@.len() == 4 * i + 2 * cy,
                forall|q: int|
                    0 <= q < out@.len() ==> (#[trigger] out@[q]).tiles@.len() == 64,
            decreases 2 - cy,
        {
            let mut cx: i32 = 0;
            while cx < 2
                invariant
                    i < chunks@.len(),
                    0 <= cy < 2,
                    0 <= cx <= 2,
                    out@.len() == 4 * i + 2 * cy + cx,
                    forall|q: int|
                        0 <= q < out@.len() ==> (#[trigger] out@[q]).tiles@.len() == 64,
                decreases 2 - cx,
            {
                let mut tiles: Vec<MapTileSetting> = Vec::new();
                let mut y: usize = 0;
                while y < 8
                    invariant
                        i < chunks@.len(),
                        y <= 8,
                        tiles@.len() == 8 * y,
                        0 <= cy < 2,
                        0 <= cx < 2,
                    decreases 8 - y,
                {
                    let mut x: usize = 0;
                    while x < 8
                        invariant
                            i < chunks@.len(),
                            y < 8,
                            x <= 8,
                            tiles@.len() == 8 * y + x,
                            0 <= cy < 2,
                            0 <= cx < 2,
                        decreases 8 - x,
                    {
                        let tx = (cx as usize) * 8 + x;
                        let ty = (cy as usize) * 8 + y;
                        let src = ty * 16 + tx;
                        let t = if src < chunk.tiles.len() {
                            let a = chunk.tiles[src];
                            if a.tile_id == 65535 {
                                crate::map_data::blank_tile()
                            } else {
                                MapTileSetting {
                                    tile_id: a.tile_id,
                                    hflip: a.hflip,
                                    vflip: a.vflip,
                                    map_tile_set: match a.tileset {
                                        GameTileSet::Planets => MapTileSet::Planets,
                                        GameTileSet::Platforms => MapTileSet::Platforms,
                                    },
                                }
                            }
                        } else {
                            crate::map_data::blank_tile()
                        };
                        tiles.push(t);
                        x = x + 1;
                    }
                    y = y + 1;
                }
                let base_x = chunk.chunk_x;
                let base_y = chunk.chunk_y;
                let ox = if base_x < 500000000 && base_x > -500000000 {
                    base_x * 2 + cx
                } else {
                    base_x
                };
                let oy = if base_y < 500000000 && base_y > -500000000 {
                    base_y * 2 + cy
                } else {
                    base_y
                };
                out.push(TileChunk { cell_x: ox, cell_y: oy, tiles });
                cx = cx + 1;
            }
            cy = cy + 1;
        }
        i = i + 1;
    }
    out
}

/// Sorts tile chunks by their cell key (insertion sort into a fresh
/// vector), so the emitted table is canonical; every chunk keeps its
/// 64-tile shape.
pub fn sort_tile_chunks(chunks: Vec<TileChunk>) -> (r: Vec<TileChunk>)
    requires
        forall|i: int|
            0 <= i < chunks@.len() ==> (#[trigger] chunks@[i]).tiles@.len() == 64,
    ensures
        r@.len() == chunks@.len(),
        forall|i: int| 0 <= i < r@.len() ==> (#[trigger] r@[i]).tiles@.len() == 64,
        forall|i: int, j: int|
            0 <= i < j < r@.len() ==> !key_lt(
                (#[trigger] r@[j]).cell_x as int,
                r@[j].cell_y as int,
                (#[trigger] r@[i]).cell_x as int,
                r@[i].cell_y as int,
            ),
{
    let mut out: Vec<TileChunk> = Vec::new();
    let mut src = chunks;
    let mut i: usize = 0;
    while i < src.len()
        invariant
            i <= src@.len(),
            src@.len() == chunks@.len(),
            out@.len() == i,
            forall|j: int|
                i <= j < src@.len() ==> (#[trigger] src@[j]).tiles@.len() == 64,
            forall|j: int| 0 <= j < out@.len() ==> (#[trigger] out@[j]).tiles@.len() == 64,
            forall|a: int, b: int|
                0 <= a < b < out@.len() ==> !key_lt(
                    (#[trigger] out@[b]).cell_x as int,
                    out@[b].cell_y as int,
                    (#[trigger] out@[a]).cell_x as int,
                    out@[a].cell_y as int,
                ),
        decreases src.len() - i,
    {
        let mut c = TileChunk { cell_x: 0, cell_y: 0, tiles: Vec::new() };
        std::mem::swap(&mut c, &mut src[i]);
        let mut lo: usize = 0;
        while lo < out.len() && cell_lt_exec(
            (out[lo].cell_x, out[lo].cell_y),
            (c.cell_x, c.cell_y),
        )
            invariant
                lo <= out@.len(),
                forall|a: int, b: int|
                    0 <= a < b < out@.len() ==> !key_lt(
                        (#[trigger] out@[b]).cell_x as int,
                        out@[b].cell_y as int,
                        (#[trigger] out@[a]).cell_x as int,
                        out@[a].cell_y as int,
                    ),
                forall|j: int|
                    0 <= j < lo ==> key_lt(
                        (#[trigger] out@[j]).cell_x as int,
                        out@[j].cell_y as int,
                        c.cell_x as int,
                        c.cell_y as int,
                    ),
            decreases out.len() - lo,
        {
            lo = lo + 1;
        }
        let ghost oldout = out@;
        out.insert(lo, c);
        proof {
            assert(forall|j: int| 0 <= j < lo ==> out@[j] == oldout[j]);
            assert(forall|j: int| lo < j < out@.len() ==> out@[j] == oldout[j - 1]);
            assert forall|a: int, b: int| 0 <= a < b < out@.len() implies !key_lt(
                (#[trigger] out@[b]).cell_x as int,
                out@[b].cell_y as int,
                (#[trigger] out@[a]).cell_x as int,
                out@[a].cell_y as int,
            ) by {
                if a == lo && b > lo {
                    if lo < oldout.len() {
                        assert(!key_lt(
                            oldout[lo as int].cell_x as int,
                            oldout[lo as int].cell_y as int,
                            out@[lo as int].cell_x as int,
                            out@[lo as int].cell_y as int,
                        ));
                    }
                }
            };
        }
        i = i + 1;
    }
    out
}


/// Scroll-stop entries under construction are strictly sorted by key.
pub open spec fn stops_sorted(v: Seq<ScrollStopEntry>) -> bool {
    forall|i: int, j: int|
        0 <= i < j < v.len() ==> key_lt(
            (#[trigger] v[i]).cell_x as int,
            v[i].cell_y as int,
            (#[trigger] v[j]).cell_x as int,
            v[j].cell_y as int,
        )
}

/// Finds a scroll-stop entry's slot, inserting a fresh unconstrained entry
/// if the cell has none yet, and returns its index.
fn stop_slot(stops: &mut Vec<ScrollStopEntry>, cx: i32, cy: i32) -> (r: usize)
    requires
        stops_sorted(old(stops)@),
    ensures
        stops_sorted(final(stops)@),
        r < final(stops)@.len(),
        final(stops)@[r as int].cell_x == cx && final(stops)@[r as int].cell_y == cy,
{
    let mut lo: usize = 0;
    while lo < stops.len() && cell_lt_exec((stops[lo].cell_x, stops[lo].cell_y), (cx, cy))
        invariant
            stops_sorted(stops@),
            stops@ == old(stops)@,
            lo <= stops@.len(),
            forall|j: int|
                0 <= j < lo ==> key_lt(
                    (#[trigger] stops@[j]).cell_x as int,
                    stops@[j].cell_y as int,
                    cx as int,
                    cy as int,
                ),
        decreases stops.len() - lo,
    {
        lo = lo + 1;
    }
    if lo < stops.len() && stops[lo].cell_x == cx && stops[lo].cell_y == cy {
        return lo;
    }
    let ghost oldseq = stops@;
    stops.insert(
        lo,
        ScrollStopEntry {
            cell_x: cx,
            cell_y: cy,
            stop: ScrollStop { minimum_x: None, minimum_y: None, maximum_x: None, maximum_y: None },
        },
    );
    proof {
        assert(forall|j: int| 0 <= j < lo ==> stops@[j] == oldseq[j]);
        assert(forall|j: int| lo < j < stops@.len() ==> stops@[j] == oldseq[j - 1]);
        assert forall|i: int, j: int| 0 <= i < j < stops@.len() implies key_lt(
            (#[trigger] stops@[i]).cell_x as int,
            stops@[i].cell_y as int,
            (#[trigger] stops@[j]).cell_x as int,
            stops@[j].cell_y as int,
        ) by {
            if i == lo && j > lo {
                if lo < oldseq.len() {
                    assert(!key_lt(
                        oldseq[lo as int].cell_x as int,
                        oldseq[lo as int].cell_y as int,
                        cx as int,
                        cy as int,
                    ));
                    assert(!(oldseq[lo as int].cell_x == cx && oldseq[lo as int].cell_y == cy));
                }
            }
        };
    }
    lo
}

/// Truncating division of a coordinate by a positive cell size, as the
/// original's integer casts have it.
fn tdiv_exec(a: i32, b: i32) -> (r: i32)
    requires
        b > 0,
    ensures
        r as int == crate::fixed::tdiv(a as int, b as int),
{
    if a >= 0 {
        a / b
    } else {
        let t: i64 = -(a as i64);
        let q: i64 = t / (b as i64);
        proof {
            vstd::arithmetic::div_mod::lemma_div_nonincreasing(t as int, b as int);
            vstd::arithmetic::div_mod::lemma_div_pos_is_pos(t as int, b as int);
        }
        (-q) as i32
    }
}

/// Ceiling division of a coordinate by a positive cell size.
fn div_ceil_exec(a: i32, b: i32) -> (r: i32)
    requires
        1 <= b <= 1024,
        -1000000000 <= a <= 1000000000,
    ensures
        r as int == -((-(a as int)) / (b as int)),
{
    let neg: i32 = -a;
    let f: i32 = div_floor_i32(neg, b);
    proof {
        if neg >= 0 {
            vstd::arithmetic::div_mod::lemma_div_nonincreasing(neg as int, b as int);
            vstd::arithmetic::div_mod::lemma_div_pos_is_pos(neg as int, b as int);
        } else {
            vstd::arithmetic::div_mod::lemma_fundamental_div_mod(neg as int, b as int);
            vstd::arithmetic::div_mod::lemma_mod_division_less_than_divisor(neg as int, b as int);
            let q = (neg as int) / (b as int);
            let m = (neg as int) % (b as int);
            assert(q < 0) by {
                if q >= 0 {
                    assert((b as int) * q >= 0) by (nonlinear_arith)
                        requires
                            b as int >= 1,
                            q >= 0,
                    ;
                }
            };
            assert(q >= -1100000000) by {
                if q < -1100000000 {
                    assert((b as int) * q <= q) by (nonlinear_arith)
                        requires
                            b as int >= 1,
                            q < 0,
                    ;
                }
            };
        }
    }
    -f
}

/// The truncated world coordinates of one authored scroll segment's two
/// endpoints.
pub open spec fn scroll_segment_coords(lines: Seq<ScrollLine>, li: int, w: int) -> (
    int,
    int,
    int,
    int,
) {
    let a = crate::vec2::v_add(lines[li].points[w], lines[li].position);
    let b = crate::vec2::v_add(lines[li].points[w + 1], lines[li].position);
    (
        crate::fixed::tdiv(a.x.raw as int, 256),
        crate::fixed::tdiv(a.y.raw as int, 256),
        crate::fixed::tdiv(b.x.raw as int, 256),
        crate::fixed::tdiv(b.y.raw as int, 256),
    )
}

/// An authored scroll segment the compiler rejects: not axis-aligned, or
/// outside the supported coordinate window.
pub open spec fn scroll_segment_bad(lines: Seq<ScrollLine>, li: int, w: int) -> bool {
    let c = scroll_segment_coords(lines, li, w);
    ||| !(c.0 == c.2 || c.1 == c.3)
    ||| !(-100000000 <= c.0 <= 100000000 && -100000000 <= c.1 <= 100000000 && -100000000 <= c.2
        <= 100000000 && -100000000 <= c.3 <= 100000000)
}

/// Builds the per-cell camera scroll stops from the authored axis-aligned
/// polylines: a vertical line clamps the camera's x over a band of cells
/// on its blocking side, a horizontal line clamps y, each offset by half
/// a screen.  A polyline segment that is not axis-aligned, or that leaves
/// the numeric window, aborts the compilation.
pub fn get_scroll_stops(lines: &Vec<ScrollLine>) -> (r: Result<
    Vec<ScrollStopEntry>,
    CompileError,
>)
    ensures
        r is Err <==> exists|li: int, w: int|
            0 <= li < lines@.len() && 0 <= w < lines@[li].points@.len() - 1
                && #[trigger] scroll_segment_bad(lines@, li, w),
        match r {
            Ok(stops) => stops_sorted(stops@),
            Err(_) => true,
        },
{
    let mut stops: Vec<ScrollStopEntry> = Vec::new();
    let mut li: usize = 0;
    while li < lines.len()
        invariant
            li <= lines@.len(),
            stops_sorted(stops@),
            forall|lj: int, ww: int|
                0 <= lj < li && 0 <= ww < lines@[lj].points@.len() - 1
                    ==> !#[trigger] scroll_segment_bad(lines@, lj, ww),
        decreases lines.len() - li,
    {
        let npts = lines[li].points.len();
        let mut w: usize = 0;
        while npts >= 1 && w < npts - 1
            invariant
                li < lines@.len(),
                npts == lines@[li as int].points@.len(),
                w <= npts,
                stops_sorted(stops@),
                forall|lj: int, ww: int|
                    0 <= lj < li && 0 <= ww < lines@[lj].points@.len() - 1
                        ==> !#[trigger] scroll_segment_bad(lines@, lj, ww),
                forall|ww: int|
                    0 <= ww < w ==> !#[trigger] scroll_segment_bad(lines@, li as int, ww),
            decreases npts - w,
        {
            let a = lines[li].points[w].add(lines[li].position);
            let b = lines[li].points[w + 1].add(lines[li].position);
            let x1t: i32 = a.x.trunc();
            let y1t: i32 = a.y.trunc();
            let x2t: i32 = b.x.trunc();
            let y2t: i32 = b.y.trunc();
            proof {
                assert(scroll_segment_coords(lines@, li as int, w as int) == (
                    x1t as int,
                    y1t as int,
                    x2t as int,
                    y2t as int,
                ));
            }
            if !(x1t == x2t || y1t == y2t) {
                proof {
                    assert(scroll_segment_bad(lines@, li as int, w as int));
                }
                return Err(CompileError::MalformedShape);
            }
            let in_window = -100000000 <= x1t && x1t <= 100000000 && -100000000 <= y1t && y1t
                <= 100000000 && -100000000 <= x2t && x2t <= 100000000 && -100000000 <= y2t && y2t
                <= 100000000;
            if !in_window {
                proof {
                    assert(scroll_segment_bad(lines@, li as int, w as int));
                }
                return Err(CompileError::NumericRange);
            }
            proof {
                assert(!scroll_segment_bad(lines@, li as int, w as int));
            }
            if x1t == x2t {
                let mut direction: i32 = 0;
                if y1t > y2t {
                    direction = 1;
                }
                if y1t < y2t {
                    direction = -1;
                }
                let start: i32 = if y1t <= y2t {
                    y1t
                } else {
                    y2t
                };
                let end: i32 = if y1t >= y2t {
                    y1t
                } else {
                    y2t
                };
                let x: i32 = tdiv_exec(x1t, SCROLL_STOP_BOX);
                let direction_x: i32 = x + direction * 3;
                let start_x: i32 = if x <= direction_x {
                    x
                } else {
                    direction_x
                };
                let end_x: i32 = if x >= direction_x {
                    x
                } else {
                    direction_x
                };
                let start_c: i32 = tdiv_exec(start, SCROLL_STOP_BOX);
                let end_c: i32 = div_ceil_exec(end, SCROLL_STOP_BOX);
                let mut y: i32 = start_c;
                while y < end_c
                    invariant
                        stops_sorted(stops@),
                        start_c <= y,
                        -4000000 <= start_x <= 4000000,
                        -4000000 <= end_x <= 4000000,
                        -2000000000 <= x1t <= 2000000000,
                        end_c <= 1000000,
                        y >= -1000000,
                    decreases end_c - y,
                {
                    let mut xx: i32 = start_x;
                    while xx < end_x
                        invariant
                            stops_sorted(stops@),
                            start_x <= xx,
                            end_x <= 4000000,
                            -2000000000 <= x1t <= 2000000000,
                        decreases end_x - xx,
                    {
                        let slot = stop_slot(&mut stops, xx, y);
                        if direction > 0 {
                            stops[slot].stop.minimum_x = Some(a.x.add(Fx::from_int(120)));
                        } else {
                            stops[slot].stop.maximum_x = Some(a.x.sub(Fx::from_int(120)));
                        }
                        xx = xx + 1;
                    }
                    y = y + 1;
                }
            } else {
                let mut direction: i32 = 0;
                if x1t > x2t {
                    direction = 1;
                }
                if x1t < x2t {
                    direction = -1;
                }
                let dir_abs: i32 = if direction < 0 {
                    -direction
                } else {
                    direction
                };
                let start: i32 = if x1t <= x2t {
                    x1t
                } else {
                    x2t
                };
                let end: i32 = if x1t >= x2t {
                    x1t
                } else {
                    x2t
                };
                let yc: i32 = tdiv_exec(y1t, SCROLL_STOP_BOX);
                let direction_y: i32 = yc + dir_abs * 3;
                let start_y: i32 = if yc <= direction_y {
                    yc
                } else {
                    direction_y
                };
                let end_y: i32 = if yc >= direction_y {
                    yc
                } else {
                    direction_y
                };
                let start_c: i32 = tdiv_exec(start, SCROLL_STOP_BOX);
                let end_c: i32 = div_ceil_exec(end, SCROLL_STOP_BOX);
                let mut x: i32 = start_c;
                while x < end_c
                    invariant
                        stops_sorted(stops@),
                        start_c <= x,
                        -4000000 <= start_y <= 4000000,
                        -4000000 <= end_y <= 4000000,
                        -2000000000 <= y1t <= 2000000000,
                        end_c <= 1000000,
                        x >= -1000000,
                    decreases end_c - x,
                {
                    let mut yy: i32 = start_y;
                    while yy < end_y
                        invariant
                            stops_sorted(stops@),
                            start_y <= yy,
                            end_y <= 4000000,
                            -2000000000 <= y1t <= 2000000000,
                        decreases end_y - yy,
                    {
                        let slot = stop_slot(&mut stops, x, yy);
                        if direction > 0 {
                            stops[slot].stop.maximum_y = Some(a.y.sub(Fx::from_int(80)));
                        } else {
                            stops[slot].stop.minimum_y = Some(a.y.add(Fx::from_int(80)));
                        }
                        yy = yy + 1;
                    }
                    x = x + 1;
                }
            }
            w = w + 1;
        }
        li = li + 1;
    }
    Ok(stops)
}


/// Path-cell entries are strictly sorted and their path indices valid.
pub open spec fn path_cells_wf(v: Seq<PathCellEntry>, n_paths: int) -> bool {
    &&& forall|i: int, j: int|
        0 <= i < j < v.len() ==> key_lt(
            (#[trigger] v[i]).cell_x as int,
            v[i].cell_y as int,
            (#[trigger] v[j]).cell_x as int,
            v[j].cell_y as int,
        )
    &&& forall|i: int, j: int|
        0 <= i < v.len() && 0 <= j < (#[trigger] v[i]).paths.len() ==> ((
        #[trigger] v[i].paths[j]) as int) < n_paths
}

/// Records a path index at a coarse cell of the path lookup.
fn upsert_path_cell(cells: &mut Vec<PathCellEntry>, cx: i32, cy: i32, idx: usize, Ghost(n): Ghost<
    int,
>)
    requires
        path_cells_wf(old(cells)@, n),
        (idx as int) < n,
    ensures
        path_cells_wf(final(cells)@, n),
{
    let mut lo: usize = 0;
    while lo < cells.len() && cell_lt_exec((cells[lo].cell_x, cells[lo].cell_y), (cx, cy))
        invariant
            path_cells_wf(cells@, n),
            cells@ == old(cells)@,
            lo <= cells@.len(),
            forall|j: int|
                0 <= j < lo ==> key_lt(
                    (#[trigger] cells@[j]).cell_x as int,
                    cells@[j].cell_y as int,
                    cx as int,
                    cy as int,
                ),
        decreases cells.len() - lo,
    {
        lo = lo + 1;
    }
    if lo < cells.len() && cells[lo].cell_x == cx && cells[lo].cell_y == cy {
        let ghost oldseq = cells@;
        let mut entry = PathCellEntry { cell_x: cx, cell_y: cy, paths: Vec::new() };
        std::mem::swap(&mut entry, &mut cells[lo]);
        entry.paths.push(idx);
        std::mem::swap(&mut entry, &mut cells[lo]);
        proof {
            assert(forall|j: int|
                0 <= j < cells@.len() && j != lo ==> cells@[j] == oldseq[j]);
            assert(cells@[lo as int].cell_x == cx && cells@[lo as int].cell_y == cy);
            assert(cells@[lo as int].paths@ == oldseq[lo as int].paths@.push(idx));
            assert forall|i: int, j: int|
                0 <= i < cells@.len() && 0 <= j < (#[trigger] cells@[i]).paths.len() implies ((
            #[trigger] cells@[i].paths[j]) as int) < n by {
                if i == lo {
                    if j < oldseq[lo as int].paths@.len() {
                        assert(cells@[lo as int].paths@[j] == oldseq[lo as int].paths@[j]);
                    }
                } else {
                    assert(cells@[i] == oldseq[i]);
                }
            };
        }
    } else {
        let ghost oldseq = cells@;
        let mut paths: Vec<usize> = Vec::new();
        paths.push(idx);
        cells.insert(lo, PathCellEntry { cell_x: cx, cell_y: cy, paths });
        proof {
            assert(forall|j: int| 0 <= j < lo ==> cells@[j] == oldseq[j]);
            assert(forall|j: int| lo < j < cells@.len() ==> cells@[j] == oldseq[j - 1]);
            assert forall|i: int, j: int| 0 <= i < j < cells@.len() implies key_lt(
                (#[trigger] cells@[i]).cell_x as int,
                cells@[i].cell_y as int,
                (#[trigger] cells@[j]).cell_x as int,
                cells@[j].cell_y as int,
            ) by {
                if i == lo && j > lo {
                    if lo < oldseq.len() {
                        assert(!key_lt(
                            oldseq[lo as int].cell_x as int,
                            oldseq[lo as int].cell_y as int,
                            cx as int,
                            cy as int,
                        ));
                        assert(!(oldseq[lo as int].cell_x == cx && oldseq[lo as int].cell_y
                            == cy));
                    }
                }
            };
            assert forall|i: int, j: int|
                0 <= i < cells@.len() && 0 <= j < (#[trigger] cells@[i]).paths.len() implies ((
            #[trigger] cells@[i].paths[j]) as int) < n by {
                if i < lo {
                    assert(cells@[i] == oldseq[i]);
                } else if i > lo {
                    assert(cells@[i] == oldseq[i - 1]);
                } else {
                    assert(cells@[lo as int].paths@ == seq![idx]);
                }
            };
        }
    }
}

/// The per-segment timer increment: the authored speed divided by the
/// segment length, in the high-precision timer format (truncating).
/// The raw timer increment of a segment: the authored speed over the
/// segment length, in the high-precision timer format, truncating.
pub open spec fn incrementer_spec(speed: int, length: int) -> int {
    crate::fixed::tdiv(speed * 16777216, length)
}

fn segment_incrementer(speed: Fx, length: Fx) -> (r: Result<Fx24, CompileError>)
    ensures
        r is Err <==> (length.raw <= 0 || !(0 <= incrementer_spec(
            speed.raw as int,
            length.raw as int,
        ) <= crate::fixed::FX24_ONE)),
        match r {
            Ok(v) => v.raw as int == incrementer_spec(speed.raw as int, length.raw as int) && 0
                <= v.raw <= crate::fixed::FX24_ONE,
            Err(e) => e == CompileError::NumericRange,
        },
{
    if length.raw <= 0 {
        return Err(CompileError::NumericRange);
    }
    let num: i64 = (speed.raw as i64) * 16777216;
    let den: i64 = length.raw as i64;
    let q: i64 = if num >= 0 {
        let p: i64 = num / den;
        proof {
            vstd::arithmetic::div_mod::lemma_div_nonincreasing(num as int, den as int);
            vstd::arithmetic::div_mod::lemma_div_pos_is_pos(num as int, den as int);
        }
        p
    } else {
        let t: i64 = -num;
        let p: i64 = t / den;
        proof {
            vstd::arithmetic::div_mod::lemma_div_nonincreasing(t as int, den as int);
            vstd::arithmetic::div_mod::lemma_div_pos_is_pos(t as int, den as int);
        }
        -p
    };
    proof {
        assert(q as int == incrementer_spec(speed.raw as int, length.raw as int));
    }
    if q < 0 || q > 16777216 {
        return Err(CompileError::NumericRange);
    }
    Ok(Fx24 { raw: q as i32 })
}

/// The indices of the named collider groups among the first `i`: the
/// groups that become moving platforms, in order.
pub open spec fn named_indices(groups: Seq<ColliderGroup>, i: int) -> Seq<int>
    decreases i,
{
    if i <= 0 {
        Seq::empty()
    } else {
        let p = named_indices(groups, i - 1);
        if groups[i - 1].name@.len() > 0 {
            p.push(i - 1)
        } else {
            p
        }
    }
}

/// Every named index points into the group list.
pub proof fn lemma_named_indices_bounds(groups: Seq<ColliderGroup>, i: int)
    requires
        i <= groups.len(),
    ensures
        forall|d: int|
            0 <= d < named_indices(groups, i).len() ==> 0 <= #[trigger] named_indices(groups, i)[d]
                < i,
    decreases i,
{
    if i > 0 {
        lemma_named_indices_bounds(groups, i - 1);
        let p = named_indices(groups, i - 1);
        assert forall|d: int|
            0 <= d < named_indices(groups, i).len() implies 0 <= #[trigger] named_indices(
            groups,
            i,
        )[d] < i by {
            if groups[i - 1].name@.len() > 0 {
                if d < p.len() {
                    assert(named_indices(groups, i)[d] == p[d]);
                } else {
                    assert(named_indices(groups, i)[d] == i - 1);
                }
            } else {
                assert(named_indices(groups, i) == p);
            }
        };
    }
}

/// A platform descriptor built from a named group: its colliders are the
/// group's, its loop flag and points come from the first authored path
/// whose name is the group's class, and each point carries the timer
/// increment of its outgoing segment (authored speed over segment
/// length).
pub open spec fn def_matches(d: PathDef, g: ColliderGroup, paths: Seq<LoweredPath>) -> bool {
    exists|pj: int|
        {
            &&& 0 <= pj < paths.len()
            &&& (#[trigger] paths[pj]).name@ == g.class@
            &&& forall|l: int| 0 <= l < pj ==> (#[trigger] paths[l]).name@ != g.class@
            &&& d.colliders@ == g.colliders@
            &&& d.complete == paths[pj].complete
            &&& d.points@.len() == paths[pj].points@.len()
            &&& forall|k: int|
                0 <= k < d.points@.len() ==> {
                    let a = paths[pj].points@[k];
                    let b = paths[pj].points@[if k + 1 == paths[pj].points@.len() {
                        0
                    } else {
                        k + 1
                    }];
                    (#[trigger] d.points@[k]).point == a && d.points@[k].incrementer.raw as int
                        == incrementer_spec(
                        paths[pj].speed.raw as int,
                        crate::fixed::fx_sqrt(crate::vec2::v_magsq(crate::vec2::v_sub(b, a))),
                    )
                }
        }
}

/// Builds the dynamic-collider descriptors: every named collider group is
/// joined to the path whose name is the group's class, each path point is
/// given the timer increment of its outgoing segment, and a coarse cell
/// lookup records which paths are near each cell.
pub fn assemble_dynamic_colliders(
    groups: &Vec<ColliderGroup>,
    paths: &Vec<LoweredPath>,
) -> (r: Result<(Vec<PathDef>, Vec<PathCellEntry>), CompileError>)
    ensures
        match r {
            Ok((defs, cells)) => {
                &&& forall|i: int|
                    0 <= i < defs@.len() ==> (#[trigger] defs@[i]).points@.len() >= 2 && defs@[
                        i
                    ].colliders@.len() >= 1
                &&& forall|i: int, k: int|
                    0 <= i < defs@.len() && 0 <= k < (#[trigger] defs@[i]).points@.len() ==> 0
                        <= (#[trigger] defs@[i].points@[k]).incrementer.raw
                        <= crate::fixed::FX24_ONE
                &&& defs@.len() == named_indices(groups@, groups@.len() as int).len()
                &&& forall|d: int|
                    0 <= d < defs@.len() ==> def_matches(
                        #[trigger] defs@[d],
                        groups@[named_indices(groups@, groups@.len() as int)[d]],
                        paths@,
                    )
                &&& path_cells_wf(cells@, defs@.len() as int)
            },
            Err(_) => true,
        },
{
    let mut defs: Vec<PathDef> = Vec::new();
    let mut gi: usize = 0;
    while gi < groups.len()
        invariant
            gi <= groups@.len(),
            forall|i: int|
                0 <= i < defs@.len() ==> (#[trigger] defs@[i]).points@.len() >= 2 && defs@[
                    i
                ].colliders@.len() >= 1,
            forall|i: int, k: int|
                0 <= i < defs@.len() && 0 <= k < (#[trigger] defs@[i]).points@.len() ==> 0 <= (
                #[trigger] defs@[i].points@[k]).incrementer.raw <= crate::fixed::FX24_ONE,
            defs@.len() == named_indices(groups@, gi as int).len(),
            forall|d: int|
                0 <= d < defs@.len() ==> def_matches(
                    #[trigger] defs@[d],
                    groups@[named_indices(groups@, gi as int)[d]],
                    paths@,
                ),
        decreases groups.len() - gi,
    {
        proof {
            lemma_named_indices_bounds(groups@, gi as int);
        }
        let g = &groups[gi];
        if g.name.as_str().unicode_len() > 0 {
            if g.colliders.len() == 0 {
                return Err(CompileError::MalformedShape);
            }
            let mut found: Option<usize> = None;
            let mut pi: usize = 0;
            while pi < paths.len()
                invariant
                    gi < groups@.len(),
                    pi <= paths@.len(),
                    match found {
                        Some(f) => (f as int) < paths@.len() && paths@[f as int].name@
                            == groups@[gi as int].class@ && forall|l: int|
                            0 <= l < f ==> (#[trigger] paths@[l]).name@ != groups@[
                                gi as int
                            ].class@,
                        None => forall|l: int|
                            0 <= l < pi ==> (#[trigger] paths@[l]).name@ != groups@[
                                gi as int
                            ].class@,
                    },
                decreases paths.len() - pi,
            {
                let is_match = str_eq(paths[pi].name.as_str(), groups[gi].class.as_str());
                proof {
                    assert(is_match == (paths@[pi as int].name@ == groups@[gi as int].class@));
                }
                if is_match {
                    match found {
                        None => {
                            found = Some(pi);
                        },
                        Some(_) => {},
                    }
                }
                pi = pi + 1;
            }
            let p = match found {
                Some(f) => f,
                None => {
                    return Err(CompileError::NoPathForGroup);
                },
            };
            let np = paths[p].points.len();
            if np < 2 {
                return Err(CompileError::MalformedShape);
            }
            let mut points: Vec<PathPoint> = Vec::new();
            let mut k: usize = 0;
            while k < np
                invariant
                    (p as int) < paths@.len(),
                    np == paths@[p as int].points@.len(),
                    np >= 2,
                    k <= np,
                    points@.len() == k,
                    forall|q: int|
                        0 <= q < points@.len() ==> 0 <= (#[trigger] points@[q]).incrementer.raw
                            <= crate::fixed::FX24_ONE,
                    forall|q: int|
                        0 <= q < points@.len() ==> {
                            let a = paths@[p as int].points@[q];
                            let b = paths@[p as int].points@[if q + 1 == np as int {
                                0
                            } else {
                                q + 1
                            }];
                            (#[trigger] points@[q]).point == a && points@[q].incrementer.raw
                                as int == incrementer_spec(
                                paths@[p as int].speed.raw as int,
                                crate::fixed::fx_sqrt(
                                    crate::vec2::v_magsq(crate::vec2::v_sub(b, a)),
                                ),
                            )
                        },
                decreases np - k,
            {
                let a = paths[p].points[k];
                let b = paths[p].points[if k + 1 == np {
                    0
                } else {
                    k + 1
                }];
                let d = b.sub(a);
                let msq = d.mag_sq();
                if msq.raw < 0 {
                    return Err(CompileError::NumericRange);
                }
                let length = msq.sqrt();
                proof {
                    crate::fixed::lemma_fx_sqrt_range(crate::vec2::v_magsq(d));
                }
                let inc = match segment_incrementer(paths[p].speed, length) {
                    Ok(v) => v,
                    Err(e) => {
                        return Err(e);
                    },
                };
                points.push(PathPoint { point: a, incrementer: inc });
                k = k + 1;
            }
            let colliders = crate::paths::copy_colliders(&g.colliders);
            let ghost olddefs = defs@;
            let d = PathDef { points, colliders, complete: paths[p].complete };
            proof {
                assert(def_matches(d, groups@[gi as int], paths@));
            }
            defs.push(d);
            proof {
                assert(named_indices(groups@, gi as int + 1) == named_indices(
                    groups@,
                    gi as int,
                ).push(gi as int));
                assert(defs@[defs@.len() - 1] == d);
                lemma_named_indices_bounds(groups@, gi as int + 1);
            }
        } else {
            proof {
                assert(groups@[gi as int].name@.len() == 0);
                assert(named_indices(groups@, gi as int + 1) == named_indices(
                    groups@,
                    gi as int,
                ));
            }
        }
        gi = gi + 1;
    }

    // which coarse cells each path's segments pass near
    let mut cells: Vec<PathCellEntry> = Vec::new();
    let mut di: usize = 0;
    while di < defs.len()
        invariant
            di <= defs@.len(),
            path_cells_wf(cells@, defs@.len() as int),
            forall|i: int|
                0 <= i < defs@.len() ==> (#[trigger] defs@[i]).points@.len() >= 2 && defs@[
                    i
                ].colliders@.len() >= 1,
            forall|i: int, k: int|
                0 <= i < defs@.len() && 0 <= k < (#[trigger] defs@[i]).points@.len() ==> 0 <= (
                #[trigger] defs@[i].points@[k]).incrementer.raw <= crate::fixed::FX24_ONE,
        decreases defs.len() - di,
    {
        let npp = defs[di].points.len();
        let mut crossed: Vec<(i32, i32)> = Vec::new();
        let mut w: usize = 0;
        while npp >= 1 && w < npp - 1
            invariant
                di < defs@.len(),
                npp == defs@[di as int].points@.len(),
                w <= npp,
                cells_sorted(crossed@),
                path_cells_wf(cells@, defs@.len() as int),
                forall|i: int|
                    0 <= i < defs@.len() ==> (#[trigger] defs@[i]).points@.len() >= 2 && defs@[
                        i
                    ].colliders@.len() >= 1,
            decreases npp - w,
        {
            let a = defs[di].points[w].point;
            let b = defs[di].points[w + 1].point;
            let boxes = crate::raster::boxes_line_crosses_through(
                (a.x.floor(), a.y.floor()),
                (b.x.floor(), b.y.floor()),
                PATH_BOX_SIZE,
            );
            let mut q: usize = 0;
            while q < boxes.len()
                invariant
                    q <= boxes@.len(),
                    cells_sorted(crossed@),
                decreases boxes.len() - q,
            {
                crate::compile::insert_cell_sorted(&mut crossed, boxes[q]);
                q = q + 1;
            }
            w = w + 1;
        }
        let mut ci: usize = 0;
        while ci < crossed.len()
            invariant
                di < defs@.len(),
                ci <= crossed@.len(),
                path_cells_wf(cells@, defs@.len() as int),
                forall|i: int|
                    0 <= i < defs@.len() ==> (#[trigger] defs@[i]).points@.len() >= 2 && defs@[
                        i
                    ].colliders@.len() >= 1,
            decreases crossed.len() - ci,
        {
            let (cx, cy) = crossed[ci];
            let mut dx: i32 = -1;
            while dx <= 1
                invariant
                    di < defs@.len(),
                    -1 <= dx <= 2,
                    path_cells_wf(cells@, defs@.len() as int),
                    forall|i: int|
                        0 <= i < defs@.len() ==> (#[trigger] defs@[i]).points@.len() >= 2
                            && defs@[i].colliders@.len() >= 1,
                decreases 2 - dx,
            {
                let mut dy: i32 = -1;
                while dy <= 1
                    invariant
                        di < defs@.len(),
                        -1 <= dx <= 1,
                        -1 <= dy <= 2,
                        path_cells_wf(cells@, defs@.len() as int),
                        forall|i: int|
                            0 <= i < defs@.len() ==> (#[trigger] defs@[i]).points@.len() >= 2
                                && defs@[i].colliders@.len() >= 1,
                    decreases 2 - dy,
                {
                    let nx = cx.checked_add(dx);
                    let ny = cy.checked_add(dy);
                    match (nx, ny) {
                        (Some(nxv), Some(nyv)) => {
                            upsert_path_cell(
                                &mut cells,
                                nxv,
                                nyv,
                                di,
                                Ghost(defs@.len() as int),
                            );
                        },
                        _ => {},
                    }
                    dy = dy + 1;
                }
                dx = dx + 1;
            }
            ci = ci + 1;
        }
        di = di + 1;
    }
    Ok((defs, cells))
}


/// Compiles one authored level to its immutable compiled map.
///
/// The static colliders are the lowered shapes of the three collider
/// layers (unnamed groups only; named groups become moving platforms);
/// every reachable grid cell gets a bounded candidate list holding at
/// least one gravitational collider; recovery points, scroll stops,
/// dynamic paths, tile chunks and power-ups are carried over; and every
/// lookup table is emitted in canonical sorted order, so compiling the
/// same level twice yields the same value.
/// Whether a cell lies within the compiler's growth distance of some
/// cell a static collider's footprint can affect: exactly the cells the
/// compiled map covers.
pub open spec fn near_occupied(statics: Seq<Collider>, cx: i32, cy: i32) -> bool {
    exists|k: usize, ox: i32, oy: i32|
        (k as int) < statics.len() && #[trigger] crate::compile::collider_occupies(
            statics[k as int],
            ox as int,
            oy as int,
        ) && -4 <= cx as int - ox as int <= 4 && -4 <= cy as int - oy as int <= 4
}

/// The static colliders one layer contributes: the lowered colliders of
/// its unnamed, unskipped objects, flattened in authored order.
pub open spec fn layer_statics(
    objs: Seq<AuthoredObject>,
    tag: ColliderTag,
    skip_points: bool,
    i: int,
) -> Seq<Collider>
    decreases i,
{
    if i <= 0 {
        Seq::empty()
    } else {
        layer_statics(objs, tag, skip_points, i - 1) + (if crate::lower::obj_skipped(
            objs[i - 1],
            skip_points,
        ) || objs[i - 1].name@.len() > 0 {
            Seq::empty()
        } else {
            crate::lower::layer_prefix(objs, tag, skip_points, objs.len() as int)->Ok_0[i - 1]
        })
    }
}

/// Flattens one extracted layer's unnamed groups into the static collider
/// array, in order.
fn flatten_unnamed(
    groups: &Vec<ColliderGroup>,
    Ghost(objs): Ghost<Seq<AuthoredObject>>,
    Ghost(tag): Ghost<ColliderTag>,
    Ghost(skip_points): Ghost<bool>,
) -> (r: Vec<Collider>)
    requires
        groups@.len() == objs.len(),
        crate::lower::layer_prefix(objs, tag, skip_points, objs.len() as int) is Ok,
        forall|i: int|
            0 <= i < groups@.len() ==> if crate::lower::obj_skipped(objs[i], skip_points) {
                (#[trigger] groups@[i]).name@ == Seq::<char>::empty() && groups@[i].colliders@
                    == Seq::<Collider>::empty()
            } else {
                (#[trigger] groups@[i]).name@ == objs[i].name@ && groups@[i].colliders@
                    == crate::lower::layer_prefix(objs, tag, skip_points, objs.len() as int)->Ok_0[i]
            },
    ensures
        r@ == layer_statics(objs, tag, skip_points, objs.len() as int),
{
    let mut out: Vec<Collider> = Vec::new();
    let mut gi: usize = 0;
    while gi < groups.len()
        invariant
            groups@.len() == objs.len(),
            gi <= groups@.len(),
            crate::lower::layer_prefix(objs, tag, skip_points, objs.len() as int) is Ok,
            forall|i: int|
                0 <= i < groups@.len() ==> if crate::lower::obj_skipped(objs[i], skip_points) {
                    (#[trigger] groups@[i]).name@ == Seq::<char>::empty() && groups@[i].colliders@
                        == Seq::<Collider>::empty()
                } else {
                    (#[trigger] groups@[i]).name@ == objs[i].name@ && groups@[i].colliders@
                        == crate::lower::layer_prefix(
                        objs,
                        tag,
                        skip_points,
                        objs.len() as int,
                    )->Ok_0[i]
                },
            out@ == layer_statics(objs, tag, skip_points, gi as int),
        decreases groups.len() - gi,
    {
        if groups[gi].name.as_str().unicode_len() == 0 {
            let mut cols = crate::paths::copy_colliders(&groups[gi].colliders);
            out.append(&mut cols);
            proof {
                if crate::lower::obj_skipped(objs[gi as int], skip_points) {
                    assert(groups@[gi as int].colliders@ =~= Seq::<Collider>::empty());
                }
                assert(out@ =~= layer_statics(objs, tag, skip_points, gi as int + 1));
            }
        } else {
            proof {
                assert(objs[gi as int].name@.len() > 0);
                assert(out@ =~= layer_statics(objs, tag, skip_points, gi as int + 1));
            }
        }
        gi = gi + 1;
    }
    out
}

pub fn compile_level(level: &AuthoredLevel) -> (r: Result<CompiledMap, CompileError>)
    ensures
        match r {
            Ok(m) => {
                &&& map_wf(m)
                &&& map_gravity_complete(m)
                &&& m.start_point == level.player_start
                &&& m.camera_start == level.camera_start
                &&& m.recovery_points@ == crate::lower::recovery_prefix(
                    level.killision@,
                    level.killision@.len() as int,
                )
                &&& m.colliders@ == layer_statics(
                    level.colliders@,
                    ColliderTag::CollisionGravitational,
                    false,
                    level.colliders@.len() as int,
                ) + layer_statics(
                    level.colliders_no_gravity@,
                    ColliderTag::CollisionOnly,
                    false,
                    level.colliders_no_gravity@.len() as int,
                ) + layer_statics(
                    level.killision@,
                    ColliderTag::Killision,
                    true,
                    level.killision@.len() as int,
                )
                &&& m.power_ups@.len() == level.items@.len()
                &&& forall|i: int|
                    0 <= i < m.cells.len() ==> near_occupied(
                        m.colliders@,
                        (#[trigger] m.cells[i]).cell_x,
                        m.cells[i].cell_y,
                    )
                &&& forall|cx: i32, cy: i32| #[trigger]
                    near_occupied(m.colliders@, cx, cy) ==> exists|i: int|
                        0 <= i < m.cells.len() && (#[trigger] m.cells[i]).cell_x == cx
                            && m.cells[i].cell_y == cy
            },
            Err(_) => true,
        },
{
    let groups_g = match extract_from_layer(
        &level.colliders,
        ColliderTag::CollisionGravitational,
        false,
    ) {
        Ok(v) => v,
        Err(e) => {
            return Err(e);
        },
    };
    let groups_ng = match extract_from_layer(
        &level.colliders_no_gravity,
        ColliderTag::CollisionOnly,
        false,
    ) {
        Ok(v) => v,
        Err(e) => {
            return Err(e);
        },
    };
    let groups_k = match extract_from_layer(&level.killision, ColliderTag::Killision, true) {
        Ok(v) => v,
        Err(e) => {
            return Err(e);
        },
    };
    // static colliders: the unnamed groups of the three layers, in order
    let mut statics: Vec<Collider> = flatten_unnamed(
        &groups_g,
        Ghost(level.colliders@),
        Ghost(ColliderTag::CollisionGravitational),
        Ghost(false),
    );
    let mut statics_ng = flatten_unnamed(
        &groups_ng,
        Ghost(level.colliders_no_gravity@),
        Ghost(ColliderTag::CollisionOnly),
        Ghost(false),
    );
    let mut statics_k = flatten_unnamed(
        &groups_k,
        Ghost(level.killision@),
        Ghost(ColliderTag::Killision),
        Ghost(true),
    );
    statics.append(&mut statics_ng);
    statics.append(&mut statics_k);

    let mut groups: Vec<ColliderGroup> = groups_g;
    let mut groups_ng = groups_ng;
    let mut groups_k = groups_k;
    groups.append(&mut groups_ng);
    groups.append(&mut groups_k);

    let spatial = match spacial_colliders(&statics) {
        Ok(v) => v,
        Err(e) => {
            return Err(e);
        },
    };
    let ring = reachable_cells(&spatial);

    let mut cells: Vec<CellEntry> = Vec::new();
    let mut ri: usize = 0;
    while ri < ring.len()
        invariant
            ri <= ring@.len(),
            cells_sorted(ring@),
            cells@.len() == ri,
            crate::compile::spatial_wf(spatial@, statics@.len() as int),
            forall|i: int|
                0 <= i < ri ==> (#[trigger] cells@[i]).cell_x == ring@[i].0 && cells@[i].cell_y
                    == ring@[i].1,
            forall|i: int, j: int|
                0 <= i < cells@.len() && 0 <= j < (#[trigger] cells@[i]).candidates.len()
                    ==> ((#[trigger] cells@[i].candidates[j]) as int) < statics@.len(),
            forall|i: int|
                0 <= i < cells@.len() ==> crate::map_data::cell_has_gravitational(
                    #[trigger] cells@[i],
                    statics@,
                ),
        decreases ring.len() - ri,
    {
        let (x, y) = ring[ri];
        if x < -10000000 || x > 10000000 || y < -10000000 || y > 10000000 {
            return Err(CompileError::NumericRange);
        }
        let cands = match crate::compile::cell_candidates(&statics, &spatial, x, y) {
            Ok(v) => v,
            Err(e) => {
                return Err(e);
            },
        };
        let ghost gcands = cands@;
        let entry = CellEntry { cell_x: x, cell_y: y, candidates: cands };
        proof {
            let j = choose|j: int|
                0 <= j < gcands.len() && statics@[(#[trigger] gcands[j]) as int].tag
                    == ColliderTag::CollisionGravitational;
            assert(entry.candidates@[j] == gcands[j]);
            assert(crate::map_data::cell_has_gravitational(entry, statics@));
        }
        cells.push(entry);
        ri = ri + 1;
    }

    let recovery_points = extract_recovery_points(&level.killision);

    let stops = match get_scroll_stops(&level.scroll_lines) {
        Ok(v) => v,
        Err(e) => {
            return Err(e);
        },
    };

    let lowered_paths = match extract_paths(&level.paths) {
        Ok(v) => v,
        Err(e) => {
            return Err(e);
        },
    };
    let (paths, path_cells) = match assemble_dynamic_colliders(&groups, &lowered_paths) {
        Ok(v) => v,
        Err(e) => {
            return Err(e);
        },
    };

    let planet_tiles = sort_tile_chunks(tiles_for_layer(&level.planet_tiles));
    let platform_tiles = sort_tile_chunks(tiles_for_layer(&level.platform_tiles));

    let power_ups = match get_powerups(&level.items) {
        Ok(v) => v,
        Err(e) => {
            return Err(e);
        },
    };

    let m = CompiledMap {
        colliders: statics,
        cells,
        recovery_points,
        scroll_stops: stops,
        paths,
        path_cells,
        planet_tiles,
        platform_tiles,
        start_point: level.player_start,
        camera_start: level.camera_start,
        power_ups,
    };
    proof {
        assert(map_wf(m));
        assert(map_gravity_complete(m));
        assert forall|i: int|
            0 <= i < m.cells.len() implies near_occupied(
            m.colliders@,
            (#[trigger] m.cells[i]).cell_x,
            m.cells[i].cell_y,
        ) by {
            assert(ring@.contains(ring@[i]));
            let j = choose|j: int|
                0 <= j < spatial@.len() && (#[trigger] spatial@[j]).cell_x - 4 <= ring@[i].0
                    <= spatial@[j].cell_x + 4 && spatial@[j].cell_y - 4 <= ring@[i].1 <= spatial@[
                    j
                ].cell_y + 4;
            let k = spatial@[j].idxs@[0];
            assert(spatial@[j].idxs@.contains(k));
            assert(crate::compile::spatial_present(
                spatial@,
                spatial@[j].cell_x as int,
                spatial@[j].cell_y as int,
                k,
            ));
            assert(crate::compile::collider_occupies(
                m.colliders@[k as int],
                spatial@[j].cell_x as int,
                spatial@[j].cell_y as int,
            ));
        };
        assert forall|cx: i32, cy: i32| #[trigger]
            near_occupied(m.colliders@, cx, cy) implies exists|i: int|
            0 <= i < m.cells.len() && (#[trigger] m.cells[i]).cell_x == cx && m.cells[i].cell_y
                == cy by {
            let (k, ox, oy) = choose|k: usize, ox: i32, oy: i32|
                (k as int) < m.colliders@.len() && #[trigger] crate::compile::collider_occupies(
                    m.colliders@[k as int],
                    ox as int,
                    oy as int,
                ) && -4 <= cx as int - ox as int <= 4 && -4 <= cy as int - oy as int <= 4;
            assert(crate::compile::spatial_present(spatial@, ox as int, oy as int, k));
            let j = choose|j: int|
                0 <= j < spatial@.len() && (#[trigger] spatial@[j]).cell_x == ox && spatial@[
                    j
                ].cell_y == oy && spatial@[j].idxs@.contains(k);
            assert(spatial@[j].cell_x - 4 <= cx <= spatial@[j].cell_x + 4 && spatial@[j].cell_y
                - 4 <= cy <= spatial@[j].cell_y + 4);
            assert(ring@.contains(((cx, cy))));
            let t = choose|t: int| 0 <= t < ring@.len() && ring@[t] == (cx, cy);
            assert(m.cells[t].cell_x == cx && m.cells[t].cell_y == cy);
        };
    }
    Ok(m)
}

} // verus!
