//! The spatial compiler's grid stages: rasterizing every collider's
//! footprint onto the cell grid, growing the reachable cell set outward
//! from the occupied cells, assembling each cell's bounded candidate list,
//! and forcing a nearest gravitational collider into every cell so that
//! the runtime can always find a gravity source.
//!
//! All cell sets are kept as vectors sorted strictly by key, so the
//! compiled output of a level is a unique value: compiling the same level
//! twice gives identical bytes, with no hash-order dependence anywhere.

use vstd::prelude::*;
use crate::collider::{Collider, ColliderKind, ColliderTag};
use crate::fixed::{div_floor_i32, tdiv, Fx};
use crate::lower::CompileError;
use crate::map_data::{key_lt, BOX_SIZE};
use crate::raster::{boxes_line_crosses_through, bresenham_points, dedup_cells};
use crate::vec2::Vec2;

verus! {

/// Half the player circle's diameter, used as the conservative padding of
/// every broad-phase test, in world units.
pub const PLAYER_CIRCLE_APPROX_RADIUS: i32 = 8;

/// How many cells outward from every occupied cell the reachable cell set
/// grows.
pub const BOX_DISTANCE_FROM_INNER: i32 = 4;

/// A cell list is strictly sorted by key (and so free of duplicates).
pub open spec fn cells_sorted(cells: Seq<(i32, i32)>) -> bool {
    forall|i: int, j: int|
        0 <= i < j < cells.len() ==> key_lt(
            (#[trigger] cells[i]).0 as int,
            cells[i].1 as int,
            (#[trigger] cells[j]).0 as int,
            cells[j].1 as int,
        )
}

/// Whether the integer point `(cx, cy)` lies within the padded radius of
/// the circle centre `(px, py)`.
pub open spec fn in_padded_circle(px: int, py: int, r: int, cx: int, cy: int) -> bool {
    (px - cx) * (px - cx) + (py - cy) * (py - cy) <= (r + PLAYER_CIRCLE_APPROX_RADIUS as int) * (r
        + PLAYER_CIRCLE_APPROX_RADIUS as int)
}

/// Whether a circle with floored centre `(px, py)` and floored radius `r`
/// can affect the grid cell `(x, y)`: one of the cell's two tested corners
/// lies within the padded radius, or the centre's own coordinate falls
/// inside the cell's span on either axis.
pub open spec fn circle_cell_pred(px: int, py: int, r: int, x: int, y: int) -> bool {
    ||| in_padded_circle(px, py, r, x * BOX_SIZE as int, y * BOX_SIZE as int)
    ||| in_padded_circle(px, py, r, (x + 1) * BOX_SIZE as int, (y + 1) * BOX_SIZE as int)
    ||| (x * BOX_SIZE as int <= px < (x + 1) * BOX_SIZE as int)
    ||| (y * BOX_SIZE as int <= py < (y + 1) * BOX_SIZE as int)
}

/// First cell column a circle's bounding box can reach.
pub open spec fn circle_min_x(px: int, r: int) -> int {
    (px - r) / BOX_SIZE as int
}

/// Last cell column a circle's bounding box can reach.
pub open spec fn circle_max_x(px: int, r: int) -> int {
    (px + r + BOX_SIZE as int - 1) / BOX_SIZE as int
}

/// First cell row a circle's bounding box can reach.
pub open spec fn circle_min_y(py: int, r: int) -> int {
    (py - r) / BOX_SIZE as int
}

/// Last cell row a circle's bounding box can reach.
pub open spec fn circle_max_y(py: int, r: int) -> int {
    (py + r + BOX_SIZE as int - 1) / BOX_SIZE as int
}

/// The grid cells a circle collider's footprint can affect: the cells of
/// its padded bounding box that pass `circle_cell_pred`, in row-major
/// (strictly sorted) order.
pub fn occupied_boxes_circle(px: i32, py: i32, r: i32) -> (res: Vec<(i32, i32)>)
    requires
        -1000000 <= px <= 1000000,
        -1000000 <= py <= 1000000,
        0 <= r <= 100000,
    ensures
        cells_sorted(res@),
        forall|i: int|
            0 <= i < res@.len() ==> {
                let c = #[trigger] res@[i];
                circle_min_x(px as int, r as int) <= c.0 <= circle_max_x(px as int, r as int)
                    && circle_min_y(py as int, r as int) <= c.1 <= circle_max_y(
                    py as int,
                    r as int,
                ) && circle_cell_pred(px as int, py as int, r as int, c.0 as int, c.1 as int)
            },
        forall|x: int, y: int|
            circle_min_x(px as int, r as int) <= x <= circle_max_x(px as int, r as int)
                && circle_min_y(py as int, r as int) <= y <= circle_max_y(py as int, r as int)
                && circle_cell_pred(px as int, py as int, r as int, x, y) ==> res@.contains(
                ((x as i32, y as i32)),
            ),
{
    let min_x = div_floor_i32(px - r, BOX_SIZE);
    let max_x = div_floor_i32(px + r + BOX_SIZE - 1, BOX_SIZE);
    let min_y = div_floor_i32(py - r, BOX_SIZE);
    let max_y = div_floor_i32(py + r + BOX_SIZE - 1, BOX_SIZE);
    let mut res: Vec<(i32, i32)> = Vec::new();
    let mut x = min_x;
    while x <= max_x
        invariant
            min_x as int == circle_min_x(px as int, r as int),
            max_x as int == circle_max_x(px as int, r as int),
            min_y as int == circle_min_y(py as int, r as int),
            max_y as int == circle_max_y(py as int, r as int),
            -1000000 <= px <= 1000000,
            -1000000 <= py <= 1000000,
            0 <= r <= 100000,
            -40000 <= min_x <= 40000,
            -40000 <= max_x <= 40000,
            -40000 <= min_y <= 40000,
            -40000 <= max_y <= 40000,
            min_x <= x <= max_x + 1,
            cells_sorted(res@),
            forall|i: int|
                0 <= i < res@.len() ==> {
                    let c = #[trigger] res@[i];
                    min_x <= c.0 < x && min_y <= c.1 <= max_y && circle_cell_pred(
                        px as int,
                        py as int,
                        r as int,
                        c.0 as int,
                        c.1 as int,
                    )
                },
            forall|xx: int, yy: int|
                min_x <= xx < x && min_y <= yy <= max_y && circle_cell_pred(
                    px as int,
                    py as int,
                    r as int,
                    xx,
                    yy,
                ) ==> res@.contains(((xx as i32, yy as i32))),
        decreases max_x - x + 1,
    {
        let mut y = min_y;
        while y <= max_y
            invariant
                -1000000 <= px <= 1000000,
                -1000000 <= py <= 1000000,
                0 <= r <= 100000,
                -40000 <= min_x <= 40000,
                -40000 <= max_x <= 40000,
                -40000 <= min_y <= 40000,
                -40000 <= max_y <= 40000,
                min_x <= x <= max_x,
                min_y <= y <= max_y + 1,
                cells_sorted(res@),
                forall|i: int|
                    0 <= i < res@.len() ==> {
                        let c = #[trigger] res@[i];
                        (min_x <= c.0 < x || (c.0 == x && min_y <= c.1 < y)) && min_y <= c.1
                            <= max_y && circle_cell_pred(
                            px as int,
                            py as int,
                            r as int,
                            c.0 as int,
                            c.1 as int,
                        )
                    },
                forall|xx: int, yy: int|
                    ((min_x <= xx < x && min_y <= yy <= max_y) || (xx == x && min_y <= yy < y))
                        && circle_cell_pred(px as int, py as int, r as int, xx, yy)
                        ==> res@.contains(((xx as i32, yy as i32))),
            decreases max_y - y + 1,
        {
            let c1 = in_circle_test(px, py, r, x * BOX_SIZE, y * BOX_SIZE);
            let c2 = in_circle_test(px, py, r, (x + 1) * BOX_SIZE, (y + 1) * BOX_SIZE);
            let c3 = x * BOX_SIZE <= px && px < (x + 1) * BOX_SIZE;
            let c4 = y * BOX_SIZE <= py && py < (y + 1) * BOX_SIZE;
            if c1 || c2 || c3 || c4 {
                let ghost prev = res@;
                res.push((x, y));
                proof {
                    assert(res@[res@.len() - 1] == (x, y));
                    assert forall|c: (i32, i32)| prev.contains(c) implies res@.contains(c) by {
                        let i = choose|i: int| 0 <= i < prev.len() && prev[i] == c;
                        assert(res@[i] == c);
                    };
                }
            }
            y = y + 1;
        }
        x = x + 1;
    }
    res
}

/// Whether the integer point lies within the padded radius of the circle
/// centre.
fn in_circle_test(px: i32, py: i32, r: i32, cx: i32, cy: i32) -> (res: bool)
    requires
        -1000000 <= px <= 1000000,
        -1000000 <= py <= 1000000,
        0 <= r <= 100000,
        -2000000 <= cx <= 2000000,
        -2000000 <= cy <= 2000000,
    ensures
        res == in_padded_circle(px as int, py as int, r as int, cx as int, cy as int),
{
    let dx: i64 = px as i64 - cx as i64;
    let dy: i64 = py as i64 - cy as i64;
    let rr: i64 = r as i64 + PLAYER_CIRCLE_APPROX_RADIUS as i64;
    proof {
        assert(0 <= (dx as int) * (dx as int) <= 0x100_0000_0000_0000 && 0 <= (dy as int) * (
        dy as int) <= 0x100_0000_0000_0000 && 0 <= (rr as int) * (rr as int)
            <= 0x100_0000_0000_0000) by (nonlinear_arith)
            requires
                -3000000 <= dx as int <= 3000000,
                -3000000 <= dy as int <= 3000000,
                0 <= rr as int <= 3000000,
        ;
    }
    dx * dx + dy * dy <= rr * rr
}

/// Inserts a cell into a sorted cell list, keeping it sorted and
/// duplicate-free.
pub fn insert_cell_sorted(cells: &mut Vec<(i32, i32)>, cell: (i32, i32))
    requires
        cells_sorted(old(cells)@),
    ensures
        cells_sorted(final(cells)@),
        forall|c: (i32, i32)| #[trigger]
            final(cells)@.contains(c) <==> (old(cells)@.contains(c) || c == cell),
{
    let mut lo: usize = 0;
    while lo < cells.len() && cell_lt_exec(cells[lo], cell)
        invariant
            cells_sorted(cells@),
            lo <= cells@.len(),
            forall|j: int|
                0 <= j < lo ==> key_lt(
                    (#[trigger] cells@[j]).0 as int,
                    cells@[j].1 as int,
                    cell.0 as int,
                    cell.1 as int,
                ),
        decreases cells.len() - lo,
    {
        lo = lo + 1;
    }
    if lo < cells.len() {
        let at = cells[lo];
        if at.0 == cell.0 && at.1 == cell.1 {
            proof {
                assert(cells@.contains(cell));
            }
            return ;
        }
    }
    let ghost oldseq = cells@;
    cells.insert(lo, cell);
    proof {
        assert(forall|j: int| 0 <= j < lo ==> cells@[j] == oldseq[j]);
        assert(forall|j: int|
            lo < j < cells@.len() ==> cells@[j] == oldseq[j - 1]);
        assert forall|c: (i32, i32)| #[trigger]
            cells@.contains(c) implies (oldseq.contains(c) || c == cell) by {
            let i = choose|i: int| 0 <= i < cells@.len() && cells@[i] == c;
            if i < lo {
                assert(oldseq[i] == c);
            } else if i > lo {
                assert(oldseq[i - 1] == c);
            }
        };
        assert forall|c: (i32, i32)| oldseq.contains(c) implies cells@.contains(c) by {
            let i = choose|i: int| 0 <= i < oldseq.len() && oldseq[i] == c;
            if i < lo {
                assert(cells@[i] == c);
            } else {
                assert(cells@[i + 1] == c);
            }
        };
        assert(cells@.contains(cell)) by {
            assert(cells@[lo as int] == cell);
        };
        assert forall|i: int, j: int| 0 <= i < j < cells@.len() implies key_lt(
            (#[trigger] cells@[i]).0 as int,
            cells@[i].1 as int,
            (#[trigger] cells@[j]).0 as int,
            cells@[j].1 as int,
        ) by {
            if i < lo && j == lo {
            } else if i == lo && j > lo {
                if lo < oldseq.len() {
                    assert(!key_lt(
                        oldseq[lo as int].0 as int,
                        oldseq[lo as int].1 as int,
                        cell.0 as int,
                        cell.1 as int,
                    ));
                    assert(!(oldseq[lo as int] == cell));
                }
            }
        };
    }
}

/// Strict lexicographic cell comparison.
pub fn cell_lt_exec(a: (i32, i32), b: (i32, i32)) -> (r: bool)
    ensures
        r == key_lt(a.0 as int, a.1 as int, b.0 as int, b.1 as int),
{
    a.0 < b.0 || (a.0 == b.0 && a.1 < b.1)
}


/// One cell of the spatial index under construction: its coordinate and
/// the indices of the colliders whose footprints were rasterized into it.
#[derive(Clone, PartialEq, Eq, Debug)]
pub struct SpatialEntry {
    pub cell_x: i32,
    pub cell_y: i32,
    pub idxs: Vec<usize>,
}

/// The spatial index is well formed: entries strictly sorted by cell key,
/// and every entry's index list strictly ascending and within the collider
/// array.
pub open spec fn spatial_wf(entries: Seq<SpatialEntry>, n: int) -> bool {
    &&& forall|i: int, j: int|
        0 <= i < j < entries.len() ==> key_lt(
            (#[trigger] entries[i]).cell_x as int,
            entries[i].cell_y as int,
            (#[trigger] entries[j]).cell_x as int,
            entries[j].cell_y as int,
        )
    &&& forall|i: int, a: int, b: int|
        0 <= i < entries.len() && 0 <= a < b < (#[trigger] entries[i]).idxs.len()
            ==> (#[trigger] entries[i].idxs[a]) < (#[trigger] entries[i].idxs[b])
    &&& forall|i: int, a: int|
        0 <= i < entries.len() && 0 <= a < (#[trigger] entries[i]).idxs.len()
            ==> (#[trigger] entries[i].idxs[a]) < n
}

/// The collider index `k` is recorded at cell `(cx, cy)`.
pub open spec fn spatial_present(entries: Seq<SpatialEntry>, cx: int, cy: int, k: usize) -> bool {
    exists|i: int|
        0 <= i < entries.len() && (#[trigger] entries[i]).cell_x == cx && entries[i].cell_y == cy
            && entries[i].idxs@.contains(k)
}

/// Inserts an index into a sorted index list, keeping it sorted and
/// duplicate-free.
fn insert_idx_sorted(idxs: &mut Vec<usize>, idx: usize)
    requires
        forall|a: int, b: int|
            0 <= a < b < old(idxs)@.len() ==> (#[trigger] old(idxs)@[a]) < (#[trigger] old(idxs)@[b]),
    ensures
        forall|a: int, b: int|
            0 <= a < b < final(idxs)@.len() ==> (#[trigger] final(idxs)@[a]) < (#[trigger] final(idxs)@[b]),
        forall|k: usize| #[trigger]
            final(idxs)@.contains(k) <==> (old(idxs)@.contains(k) || k == idx),
{
    let mut lo: usize = 0;
    while lo < idxs.len() && idxs[lo] < idx
        invariant
            lo <= idxs@.len(),
            forall|a: int, b: int|
                0 <= a < b < idxs@.len() ==> (#[trigger] idxs@[a]) < (#[trigger] idxs@[b]),
            forall|j: int| 0 <= j < lo ==> (#[trigger] idxs@[j]) < idx,
        decreases idxs.len() - lo,
    {
        lo = lo + 1;
    }
    if lo < idxs.len() && idxs[lo] == idx {
        proof {
            assert(idxs@.contains(idx));
        }
        return ;
    }
    let ghost oldseq = idxs@;
    idxs.insert(lo, idx);
    proof {
        assert forall|k: usize| #[trigger]
            idxs@.contains(k) implies (oldseq.contains(k) || k == idx) by {
            let i = choose|i: int| 0 <= i < idxs@.len() && idxs@[i] == k;
            if i < lo {
                assert(oldseq[i] == k);
            } else if i > lo {
                assert(oldseq[i - 1] == k);
            }
        };
        assert forall|k: usize| oldseq.contains(k) implies idxs@.contains(k) by {
            let i = choose|i: int| 0 <= i < oldseq.len() && oldseq[i] == k;
            if i < lo {
                assert(idxs@[i] == k);
            } else {
                assert(idxs@[i + 1] == k);
            }
        };
        assert(idxs@.contains(idx)) by {
            assert(idxs@[lo as int] == idx);
        };
        assert forall|a: int, b: int| 0 <= a < b < idxs@.len() implies (#[trigger] idxs@[a]) < (
        #[trigger] idxs@[b]) by {
            if a < lo && b == lo {
            } else if a == lo && b > lo {
                if lo < oldseq.len() {
                    assert(oldseq[lo as int] >= idx);
                    assert(oldseq[lo as int] != idx);
                }
            }
        };
    }
}

/// Records a collider index at a cell of the spatial index.
fn upsert_spatial(entries: &mut Vec<SpatialEntry>, cell: (i32, i32), idx: usize, Ghost(n): Ghost<
    int,
>)
    requires
        spatial_wf(old(entries)@, n),
        (idx as int) < n,
    ensures
        spatial_wf(final(entries)@, n),
        (forall|i: int|
            0 <= i < old(entries)@.len() ==> (#[trigger] old(entries)@[i]).idxs@.len() >= 1)
            ==> (forall|i: int|
            0 <= i < final(entries)@.len() ==> (#[trigger] final(entries)@[i]).idxs@.len() >= 1),
        forall|cx: int, cy: int, k: usize| #[trigger]
            spatial_present(final(entries)@, cx, cy, k) <==> (spatial_present(
                old(entries)@,
                cx,
                cy,
                k,
            ) || (cx == cell.0 as int && cy == cell.1 as int && k == idx)),
{
    let mut lo: usize = 0;
    while lo < entries.len() && cell_lt_exec((entries[lo].cell_x, entries[lo].cell_y), cell)
        invariant
            spatial_wf(entries@, n),
            entries@ == old(entries)@,
            lo <= entries@.len(),
            forall|j: int|
                0 <= j < lo ==> key_lt(
                    (#[trigger] entries@[j]).cell_x as int,
                    entries@[j].cell_y as int,
                    cell.0 as int,
                    cell.1 as int,
                ),
        decreases entries.len() - lo,
    {
        lo = lo + 1;
    }
    if lo < entries.len() && entries[lo].cell_x == cell.0 && entries[lo].cell_y == cell.1 {
        let ghost oldseq = entries@;
        let ghost oldidxs = entries@[lo as int].idxs@;
        let mut cur = SpatialEntry { cell_x: cell.0, cell_y: cell.1, idxs: Vec::new() };
        std::mem::swap(&mut cur, &mut entries[lo]);
        let mut idxs = cur.idxs;
        insert_idx_sorted(&mut idxs, idx);
        entries[lo].idxs = idxs;
        proof {
            assert(entries@[lo as int].cell_x == cell.0 && entries@[lo as int].cell_y == cell.1);
            assert(forall|j: int|
                0 <= j < entries@.len() && j != lo ==> entries@[j] == oldseq[j]);
            assert forall|i: int, a: int|
                0 <= i < entries@.len() && 0 <= a < (#[trigger] entries@[i]).idxs.len() implies (
            #[trigger] entries@[i].idxs[a]) < n by {
                if i == lo {
                    let k = entries@[lo as int].idxs@[a];
                    assert(entries@[lo as int].idxs@.contains(k));
                    if k != idx {
                        assert(oldidxs.contains(k));
                        let t = choose|t: int| 0 <= t < oldidxs.len() && oldidxs[t] == k;
                        assert(oldseq[lo as int].idxs@[t] == k);
                    }
                } else {
                    assert(entries@[i] == oldseq[i]);
                }
            };
            if forall|i3: int|
                0 <= i3 < oldseq.len() ==> (#[trigger] oldseq[i3]).idxs@.len() >= 1 {
                assert forall|i: int|
                    0 <= i < entries@.len() implies (#[trigger] entries@[i]).idxs@.len() >= 1 by {
                    if i == lo {
                        assert(entries@[lo as int].idxs@.contains(idx));
                        let t = choose|t: int|
                            0 <= t < entries@[lo as int].idxs@.len() && entries@[
                                lo as int
                            ].idxs@[t] == idx;
                    } else {
                        assert(entries@[i] == oldseq[i]);
                    }
                };
            }
            assert forall|cx: int, cy: int, k: usize| #[trigger]
                spatial_present(entries@, cx, cy, k) implies (spatial_present(oldseq, cx, cy, k)
                || (cx == cell.0 as int && cy == cell.1 as int && k == idx)) by {
                let i = choose|i: int|
                    0 <= i < entries@.len() && (#[trigger] entries@[i]).cell_x == cx && entries@[
                        i
                    ].cell_y == cy && entries@[i].idxs@.contains(k);
                if i == lo {
                    if k != idx {
                        assert(oldidxs.contains(k));
                        assert(oldseq[lo as int].idxs@.contains(k));
                    }
                } else {
                    assert(oldseq[i].idxs@.contains(k));
                }
            };
            assert forall|cx: int, cy: int, k: usize|
                spatial_present(oldseq, cx, cy, k) || (cx == cell.0 as int && cy == cell.1 as int
                    && k == idx) implies #[trigger] spatial_present(
                entries@,
                cx,
                cy,
                k,
            ) by {
                if spatial_present(oldseq, cx, cy, k) {
                    let i = choose|i: int|
                        0 <= i < oldseq.len() && (#[trigger] oldseq[i]).cell_x == cx && oldseq[
                            i
                        ].cell_y == cy && oldseq[i].idxs@.contains(k);
                    if i == lo {
                        assert(entries@[lo as int].idxs@.contains(k));
                    } else {
                        assert(entries@[i].idxs@.contains(k));
                    }
                } else {
                    assert(entries@[lo as int].idxs@.contains(idx));
                }
            };
        }
    } else {
        let ghost oldseq = entries@;
        let mut idxs: Vec<usize> = Vec::new();
        idxs.push(idx);
        entries.insert(lo, SpatialEntry { cell_x: cell.0, cell_y: cell.1, idxs });
        proof {
            assert(forall|j: int| 0 <= j < lo ==> entries@[j] == oldseq[j]);
            assert(forall|j: int|
                lo < j < entries@.len() ==> entries@[j] == oldseq[j - 1]);
            assert(entries@[lo as int].cell_x == cell.0 && entries@[lo as int].cell_y == cell.1);
            assert(entries@[lo as int].idxs@ == seq![idx]);
            assert(entries@[lo as int].idxs@[0] == idx);
            assert(entries@[lo as int].idxs@.contains(idx));
            assert forall|i2: int|
                (forall|i3: int|
                    0 <= i3 < oldseq.len() ==> (#[trigger] oldseq[i3]).idxs@.len() >= 1) && 0
                    <= i2 < entries@.len() implies (#[trigger] entries@[i2]).idxs@.len() >= 1 by {
                if i2 < lo {
                    assert(entries@[i2] == oldseq[i2]);
                } else if i2 > lo {
                    assert(entries@[i2] == oldseq[i2 - 1]);
                }
            };
            assert forall|i: int, a: int, b: int|
                0 <= i < entries@.len() && 0 <= a < b < (#[trigger] entries@[i]).idxs.len() implies (
            #[trigger] entries@[i].idxs[a]) < (#[trigger] entries@[i].idxs[b]) by {
                if i < lo {
                    assert(entries@[i] == oldseq[i]);
                } else if i > lo {
                    assert(entries@[i] == oldseq[i - 1]);
                }
            };
            assert forall|i: int, a: int|
                0 <= i < entries@.len() && 0 <= a < (#[trigger] entries@[i]).idxs.len() implies (
            #[trigger] entries@[i].idxs[a]) < n by {
                if i < lo {
                    assert(entries@[i] == oldseq[i]);
                } else if i > lo {
                    assert(entries@[i] == oldseq[i - 1]);
                }
            };
            assert forall|i: int, j: int| 0 <= i < j < entries@.len() implies key_lt(
                (#[trigger] entries@[i]).cell_x as int,
                entries@[i].cell_y as int,
                (#[trigger] entries@[j]).cell_x as int,
                entries@[j].cell_y as int,
            ) by {
                if i < lo && j == lo {
                } else if i == lo && j > lo {
                    if lo < oldseq.len() {
                        assert(!key_lt(
                            oldseq[lo as int].cell_x as int,
                            oldseq[lo as int].cell_y as int,
                            cell.0 as int,
                            cell.1 as int,
                        ));
                        assert(!(oldseq[lo as int].cell_x == cell.0 && oldseq[lo as int].cell_y
                            == cell.1));
                    }
                }
            };
            assert forall|cx: int, cy: int, k: usize| #[trigger]
                spatial_present(entries@, cx, cy, k) implies (spatial_present(oldseq, cx, cy, k)
                || (cx == cell.0 as int && cy == cell.1 as int && k == idx)) by {
                let i = choose|i: int|
                    0 <= i < entries@.len() && (#[trigger] entries@[i]).cell_x == cx && entries@[
                        i
                    ].cell_y == cy && entries@[i].idxs@.contains(k);
                if i < lo {
                    assert(oldseq[i].idxs@.contains(k));
                } else if i > lo {
                    assert(oldseq[i - 1].idxs@.contains(k));
                }
            };
            assert forall|cx: int, cy: int, k: usize|
                spatial_present(oldseq, cx, cy, k) || (cx == cell.0 as int && cy == cell.1 as int
                    && k == idx) implies #[trigger] spatial_present(
                entries@,
                cx,
                cy,
                k,
            ) by {
                if spatial_present(oldseq, cx, cy, k) {
                    let i = choose|i: int|
                        0 <= i < oldseq.len() && (#[trigger] oldseq[i]).cell_x == cx && oldseq[
                            i
                        ].cell_y == cy && oldseq[i].idxs@.contains(k);
                    if i < lo {
                        assert(entries@[i].idxs@.contains(k));
                    } else {
                        assert(entries@[i + 1].idxs@.contains(k));
                    }
                } else {
                    assert(entries@[lo as int].idxs@.contains(idx));
                }
            };
        }
    }
}


/// Whether a collider's footprint was rasterized into the cell `(x, y)`:
/// for circles and arcs, the padded bounding-box test; for line segments,
/// membership in the digital-line cell walk.
pub open spec fn collider_occupies(c: Collider, x: int, y: int) -> bool {
    match c.kind {
        ColliderKind::Circle(s) => {
            let px = crate::fixed::fx_floor(s.position.x.raw as int);
            let py = crate::fixed::fx_floor(s.position.y.raw as int);
            let r = crate::fixed::fx_floor(s.radius.raw as int);
            circle_min_x(px, r) <= x <= circle_max_x(px, r) && circle_min_y(py, r) <= y
                <= circle_max_y(py, r) && circle_cell_pred(px, py, r, x, y)
        },
        ColliderKind::Arc(a) => {
            let px = crate::fixed::fx_floor(a.circle.position.x.raw as int);
            let py = crate::fixed::fx_floor(a.circle.position.y.raw as int);
            let r = crate::fixed::fx_floor(a.circle.radius.raw as int);
            circle_min_x(px, r) <= x <= circle_max_x(px, r) && circle_min_y(py, r) <= y
                <= circle_max_y(py, r) && circle_cell_pred(px, py, r, x, y)
        },
        ColliderKind::Line(l) => {
            let sx = crate::fixed::fx_floor(l.start.x.raw as int);
            let sy = crate::fixed::fx_floor(l.start.y.raw as int);
            let ex = crate::fixed::fx_floor(l.end.x.raw as int);
            let ey = crate::fixed::fx_floor(l.end.y.raw as int);
            dedup_cells(
                bresenham_points((sx as i32, sy as i32), (ex as i32, ey as i32)),
                BOX_SIZE as int,
            ).contains((x as i32, y as i32))
        },
    }
}

/// The grid cells one collider's footprint can affect.  An error where a
/// circle's centre or radius leaves the supported numeric window.
fn collider_cells(c: &Collider) -> (r: Result<Vec<(i32, i32)>, CompileError>)
    ensures
        match r {
            Ok(v) => forall|x: i32, y: i32|
                collider_occupies(*c, x as int, y as int) <==> v@.contains(((x, y))),
            Err(_) => true,
        },
{
    match &c.kind {
        ColliderKind::Circle(s) => {
            let px = s.position.x.floor();
            let py = s.position.y.floor();
            let r = s.radius.floor();
            if px < -1000000 || px > 1000000 || py < -1000000 || py > 1000000 || r < 0 || r
                > 100000 {
                return Err(CompileError::NumericRange);
            }
            let v = occupied_boxes_circle(px, py, r);
            proof {
                assert forall|x: i32, y: i32|
                    collider_occupies(*c, x as int, y as int) <==> v@.contains(((x, y))) by {
                    if v@.contains(((x, y))) {
                        let i = choose|i: int| 0 <= i < v@.len() && v@[i] == (x, y);
                    }
                };
            }
            Ok(v)
        },
        ColliderKind::Arc(a) => {
            let px = a.circle.position.x.floor();
            let py = a.circle.position.y.floor();
            let r = a.circle.radius.floor();
            if px < -1000000 || px > 1000000 || py < -1000000 || py > 1000000 || r < 0 || r
                > 100000 {
                return Err(CompileError::NumericRange);
            }
            let v = occupied_boxes_circle(px, py, r);
            proof {
                assert forall|x: i32, y: i32|
                    collider_occupies(*c, x as int, y as int) <==> v@.contains(((x, y))) by {
                    if v@.contains(((x, y))) {
                        let i = choose|i: int| 0 <= i < v@.len() && v@[i] == (x, y);
                    }
                };
            }
            Ok(v)
        },
        ColliderKind::Line(l) => {
            let sx = l.start.x.floor();
            let sy = l.start.y.floor();
            let ex = l.end.x.floor();
            let ey = l.end.y.floor();
            let v = boxes_line_crosses_through((sx, sy), (ex, ey), BOX_SIZE);
            Ok(v)
        },
    }
}

/// Builds the spatial index: every collider index recorded at exactly the
/// cells its footprint can affect, in a canonical sorted form.
pub fn spacial_colliders(colliders: &Vec<Collider>) -> (r: Result<
    Vec<SpatialEntry>,
    CompileError,
>)
    ensures
        match r {
            Ok(entries) => {
                &&& spatial_wf(entries@, colliders@.len() as int)
                &&& forall|i: int|
                    0 <= i < entries@.len() ==> (#[trigger] entries@[i]).idxs@.len() >= 1
                &&& forall|cx: i32, cy: i32, k: usize| #[trigger]
                    spatial_present(entries@, cx as int, cy as int, k) <==> ((k as int)
                        < colliders@.len() && collider_occupies(
                        colliders@[k as int],
                        cx as int,
                        cy as int,
                    ))
            },
            Err(_) => true,
        },
{
    let n = colliders.len();
    let mut entries: Vec<SpatialEntry> = Vec::new();
    let mut idx: usize = 0;
    while idx < n
        invariant
            n == colliders@.len(),
            idx <= n,
            spatial_wf(entries@, n as int),
            forall|i: int|
                0 <= i < entries@.len() ==> (#[trigger] entries@[i]).idxs@.len() >= 1,
            forall|cx: i32, cy: i32, k: usize| #[trigger]
                spatial_present(entries@, cx as int, cy as int, k) <==> (k < idx
                    && collider_occupies(colliders@[k as int], cx as int, cy as int)),
        decreases n - idx,
    {
        let cells = match collider_cells(&colliders[idx]) {
            Err(e) => {
                return Err(e);
            },
            Ok(v) => v,
        };
        let mut j: usize = 0;
        while j < cells.len()
            invariant
                n == colliders@.len(),
                idx < n,
                j <= cells@.len(),
                spatial_wf(entries@, n as int),
                forall|i: int|
                    0 <= i < entries@.len() ==> (#[trigger] entries@[i]).idxs@.len() >= 1,
                forall|x: i32, y: i32|
                    collider_occupies(colliders@[idx as int], x as int, y as int)
                        <==> cells@.contains(((x, y))),
                forall|cx: i32, cy: i32, k: usize| #[trigger]
                    spatial_present(entries@, cx as int, cy as int, k) <==> ((k < idx
                        && collider_occupies(colliders@[k as int], cx as int, cy as int)) || (k
                        == idx && cells@.subrange(0, j as int).contains(((cx, cy))))),
            decreases cells.len() - j,
        {
            let cell = cells[j];
            upsert_spatial(&mut entries, cell, idx, Ghost(n as int));
            proof {
                assert(cells@.subrange(0, j as int + 1) == cells@.subrange(0, j as int).push(
                    cells@[j as int],
                ));
                assert forall|cx: i32, cy: i32|
                    cells@.subrange(0, j as int + 1).contains(((cx, cy))) <==> (cells@.subrange(
                        0,
                        j as int,
                    ).contains(((cx, cy))) || (cx == cell.0 && cy == cell.1)) by {
                    if cells@.subrange(0, j as int).contains(((cx, cy))) || (cx == cell.0 && cy
                        == cell.1) {
                        assert(cells@.subrange(0, j as int + 1).contains(((cx, cy)))) by {
                            if cells@.subrange(0, j as int).contains(((cx, cy))) {
                                let t = choose|t: int|
                                    0 <= t < j as int && cells@.subrange(0, j as int)[t] == (
                                    cx,
                                    cy,
                                );
                                assert(cells@.subrange(0, j as int + 1)[t] == (cx, cy));
                            } else {
                                assert(cells@.subrange(0, j as int + 1)[j as int] == (cx, cy));
                            }
                        };
                    }
                    if cells@.subrange(0, j as int + 1).contains(((cx, cy))) {
                        let t = choose|t: int|
                            0 <= t <= j as int && #[trigger] cells@.subrange(0, j as int + 1)[t]
                                == (cx, cy);
                        if t < j as int {
                            assert(cells@.subrange(0, j as int)[t] == (cx, cy));
                        }
                    }
                };
            }
            j = j + 1;
        }
        proof {
            assert(cells@.subrange(0, cells@.len() as int) =~= cells@);
        }
        idx = idx + 1;
    }
    Ok(entries)
}


/// Adds to a sorted cell set the full square of cells within `radius`
/// cells of `(cx, cy)` on both axes (clipped at the integer limits).
fn add_box(cells: &mut Vec<(i32, i32)>, cx: i32, cy: i32, radius: i32)
    requires
        cells_sorted(old(cells)@),
        0 <= radius <= 8,
    ensures
        cells_sorted(final(cells)@),
        forall|c: (i32, i32)| #[trigger]
            final(cells)@.contains(c) <==> (old(cells)@.contains(c) || (cx as int - radius <= c.0
                <= cx as int + radius && cy as int - radius <= c.1 <= cy as int + radius)),
{
    let mut dx: i32 = -radius;
    while dx <= radius
        invariant
            cells_sorted(cells@),
            0 <= radius <= 8,
            -radius <= dx <= radius + 1,
            forall|c: (i32, i32)| #[trigger]
                cells@.contains(c) <==> (old(cells)@.contains(c) || (cx as int - radius <= c.0
                    < cx as int + dx && cy as int - radius <= c.1 <= cy as int + radius)),
        decreases radius - dx + 1,
    {
        let mut dy: i32 = -radius;
        while dy <= radius
            invariant
                cells_sorted(cells@),
                0 <= radius <= 8,
                -radius <= dx <= radius,
                -radius <= dy <= radius + 1,
                forall|c: (i32, i32)| #[trigger]
                    cells@.contains(c) <==> (old(cells)@.contains(c) || (cx as int - radius <= c.0
                        < cx as int + dx && cy as int - radius <= c.1 <= cy as int + radius) || (c.0
                        == cx as int + dx && cy as int - radius <= c.1 < cy as int + dy)),
            decreases radius - dy + 1,
        {
            let nxo = cx.checked_add(dx);
            let nyo = cy.checked_add(dy);
            match (nxo, nyo) {
                (Some(nx), Some(ny)) => {
                    insert_cell_sorted(cells, (nx, ny));
                },
                _ => {},
            }
            proof {
                if cx as int + dx < i32::MIN as int || cx as int + dx > i32::MAX as int || cy as int
                    + dy < i32::MIN as int || cy as int + dy > i32::MAX as int {
                    assert forall|c: (i32, i32)|
                        !(c.0 == cx as int + dx && c.1 == cy as int + dy) by {};
                }
            }
            dy = dy + 1;
        }
        dx = dx + 1;
    }
}

/// The reachable cell set: every cell within `BOX_DISTANCE_FROM_INNER`
/// cells of some occupied cell of the spatial index.
pub fn reachable_cells(entries: &Vec<SpatialEntry>) -> (r: Vec<(i32, i32)>)
    ensures
        cells_sorted(r@),
        forall|c: (i32, i32)| #[trigger]
            r@.contains(c) <==> exists|i: int|
                0 <= i < entries@.len() && (#[trigger] entries@[i]).cell_x - 4 <= c.0 <= entries@[
                    i
                ].cell_x + 4 && entries@[i].cell_y - 4 <= c.1 <= entries@[i].cell_y + 4,
{
    let mut out: Vec<(i32, i32)> = Vec::new();
    let mut i: usize = 0;
    while i < entries.len()
        invariant
            i <= entries@.len(),
            cells_sorted(out@),
            forall|c: (i32, i32)| #[trigger]
                out@.contains(c) <==> exists|j: int|
                    0 <= j < i && (#[trigger] entries@[j]).cell_x - 4 <= c.0 <= entries@[j].cell_x
                        + 4 && entries@[j].cell_y - 4 <= c.1 <= entries@[j].cell_y + 4,
        decreases entries.len() - i,
    {
        add_box(&mut out, entries[i].cell_x, entries[i].cell_y, BOX_DISTANCE_FROM_INNER);
        i = i + 1;
    }
    out
}

/// The first gravitational collider whose closest point is nearest to a
/// corner point (by squared closest-point distance), over the whole
/// level.  An error where the level has no gravitational collider at all,
/// or a gravitational collider's closest-point query is undefined.
fn nearest_gravity_idx(colliders: &Vec<Collider>, corner: Vec2) -> (r: Result<
    usize,
    CompileError,
>)
    ensures
        r is Err <==> ((forall|j: int|
            0 <= j < colliders@.len() ==> (#[trigger] colliders@[j]).tag
                != ColliderTag::CollisionGravitational) || (exists|j: int|
            0 <= j < colliders@.len() && (#[trigger] colliders@[j]).tag
                == ColliderTag::CollisionGravitational && !crate::player::closest_query_ok(
                colliders@[j],
                corner,
            ))),
        match r {
            Ok(i) => crate::player::first_gravity_argmin(colliders@, corner, i as int),
            Err(e) => e == CompileError::NumericRange || e == CompileError::NoGravitationalCollider,
        },
{
    proof {
        reveal(crate::player::closest_query_ok);
        reveal(crate::player::closest_dist_sq);
        reveal(crate::player::closest_point_vec);
        reveal(crate::map_data::dist_sq_raw);
    }
    let mut best: Option<(usize, i32)> = None;
    let mut i: usize = 0;
    while i < colliders.len()
        invariant
            i <= colliders@.len(),
            match best {
                Some((b, d)) => {
                    &&& (b as int) < colliders@.len()
                    &&& colliders@[b as int].tag == ColliderTag::CollisionGravitational
                    &&& d as int == crate::player::closest_dist_sq(colliders@[b as int], corner)
                    &&& forall|j: int|
                        0 <= j < i && (#[trigger] colliders@[j]).tag
                            == ColliderTag::CollisionGravitational
                            ==> crate::player::closest_dist_sq(colliders@[j], corner) >= d as int
                    &&& forall|j: int|
                        0 <= j < b && (#[trigger] colliders@[j]).tag
                            == ColliderTag::CollisionGravitational
                            ==> crate::player::closest_dist_sq(colliders@[j], corner) > d as int
                },
                None => forall|j: int|
                    0 <= j < i ==> (#[trigger] colliders@[j]).tag
                        != ColliderTag::CollisionGravitational,
            },
            forall|j: int|
                0 <= j < i && (#[trigger] colliders@[j]).tag
                    == ColliderTag::CollisionGravitational
                    ==> crate::player::closest_query_ok(colliders@[j], corner),
        decreases colliders.len() - i,
    {
        proof {
            reveal(crate::player::closest_query_ok);
            reveal(crate::player::closest_dist_sq);
            reveal(crate::player::closest_point_vec);
            reveal(crate::map_data::dist_sq_raw);
        }
        let c = &colliders[i];
        if c.tag.is_gravitational() {
            if !closest_point_ok_exec(c, corner) {
                return Err(CompileError::NumericRange);
            }
            let cp = c.closest_point(corner);
            let d = cp.sub(corner).mag_sq().raw;
            match best {
                None => {
                    best = Some((i, d));
                },
                Some((_, bd)) => {
                    if d < bd {
                        best = Some((i, d));
                    }
                },
            }
        }
        i = i + 1;
    }
    match best {
        Some((b, _)) => Ok(b),
        None => Err(CompileError::NoGravitationalCollider),
    }
}

/// Whether a collider's closest-point query is defined at a point.
fn closest_point_ok_exec(c: &Collider, p: Vec2) -> (r: bool)
    ensures
        r == crate::collider::collider_closest_ok(*c, p.x.raw as int, p.y.raw as int),
{
    match &c.kind {
        ColliderKind::Circle(s) => circle_norm_ok_exec(s, p),
        ColliderKind::Line(l) => line_ok_exec(l, p),
        ColliderKind::Arc(a) => circle_norm_ok_exec(&a.circle, p),
    }
}

/// Whether a circle's normal is defined at a point.
fn circle_norm_ok_exec(s: &crate::geom::Circle, p: Vec2) -> (r: bool)
    ensures
        r == crate::geom::circle_normal_ok(*s, p.x.raw as int, p.y.raw as int),
{
    let d = p.sub(s.position);
    let m = d.fast_magnitude();
    if m.raw == 0 {
        false
    } else if m.raw == -1 {
        let sx = crate::fixed::Fx { raw: d.x.raw }.mul_int(256);
        let sy = crate::fixed::Fx { raw: d.y.raw }.mul_int(256);
        !(sx.raw == i32::MIN || sy.raw == i32::MIN)
    } else {
        true
    }
}

/// Whether a segment's closest-point query is defined at a point.
fn line_ok_exec(l: &crate::geom::Line, p: Vec2) -> (r: bool)
    ensures
        r == crate::geom::line_closest_ok(*l, p.x.raw as int, p.y.raw as int),
{
    let xx = l.end.sub(l.start);
    let pr = p.sub(l.start);
    let msq = l.length.mul(l.length);
    let disc = xx.dot(pr);
    if !(0 < disc.raw && disc.raw < msq.raw) {
        return true;
    }
    let f = msq.floor();
    if f == 0 {
        false
    } else if f == -1 {
        let mx = xx.x.mul(disc);
        let my = xx.y.mul(disc);
        !(mx.raw == i32::MIN || my.raw == i32::MIN)
    } else {
        true
    }
}

/// Whether a collider's shape is curved (circle or arc) rather than a
/// line segment: curved candidates are ordered before lines.
pub open spec fn is_curved(c: Collider) -> bool {
    !(c.kind is Line)
}

/// A candidate list in the canonical order: all curved colliders first,
/// then all line colliders, each group in ascending index order.
pub open spec fn candidates_canonical(colliders: Seq<Collider>, cands: Seq<usize>) -> bool {
    &&& forall|a: int, b: int|
        0 <= a < b < cands.len() && is_curved(colliders[cands[a] as int]) == is_curved(
            colliders[cands[b] as int],
        ) ==> (#[trigger] cands[a]) < (#[trigger] cands[b])
    &&& forall|a: int, b: int|
        0 <= a < b < cands.len() ==> !(is_curved(colliders[(#[trigger] cands[b]) as int])
            && !is_curved(colliders[(#[trigger] cands[a]) as int]))
}

/// The world point of the `pi`-th sample on a cell's perimeter.
pub open spec fn perimeter_sample(cellx: int, celly: int, pi: int) -> Vec2 {
    let pp = crate::spiral::perimeter_point(
        cellx * BOX_SIZE as int,
        celly * BOX_SIZE as int,
        BOX_SIZE as int,
        pi,
    );
    Vec2 {
        x: Fx { raw: crate::fixed::fx_of_int(pp.0) as i32 },
        y: Fx { raw: crate::fixed::fx_of_int(pp.1) as i32 },
    }
}

/// Whether a collider's closest point comes within the player radius of
/// some sample point on the cell's perimeter: the conservative test that
/// pulls neighbouring colliders into a cell's candidate list.
pub open spec fn perimeter_reaches(c: Collider, cellx: int, celly: int) -> bool {
    exists|pi: int|
        0 <= pi < 4 * BOX_SIZE as int && {
            let d = crate::player::closest_dist_sq(c, #[trigger] perimeter_sample(cellx, celly, pi));
            0 <= d <= 16384
        }
}

/// Inserts a collider index into a sorted, bounded index set.
fn insert_idx_bounded(s: &mut Vec<usize>, idx: usize, Ghost(n): Ghost<int>)
    requires
        (idx as int) < n,
        forall|a: int, b: int|
            0 <= a < b < old(s)@.len() ==> (#[trigger] old(s)@[a]) < (#[trigger] old(s)@[b]),
        forall|j: int| 0 <= j < old(s)@.len() ==> ((#[trigger] old(s)@[j]) as int) < n,
    ensures
        forall|a: int, b: int|
            0 <= a < b < final(s)@.len() ==> (#[trigger] final(s)@[a]) < (#[trigger] final(s)@[b]),
        forall|j: int| 0 <= j < final(s)@.len() ==> ((#[trigger] final(s)@[j]) as int) < n,
        forall|k: usize| #[trigger]
            final(s)@.contains(k) <==> (old(s)@.contains(k) || k == idx),
{
    let ghost olds = s@;
    insert_idx_sorted(s, idx);
    proof {
        assert forall|j: int| 0 <= j < s@.len() implies ((#[trigger] s@[j]) as int) < n by {
            let k = s@[j];
            assert(s@.contains(k));
            if k != idx {
                assert(olds.contains(k));
                let t = choose|t: int| 0 <= t < olds.len() && olds[t] == k;
            }
        };
    }
}

/// Assembles one reachable cell's candidate list: the colliders rasterized
/// into the cell, the neighbouring colliders that can reach the cell's
/// perimeter within the player radius, and for each cell corner the
/// nearest gravitational collider of the whole level, emitted curved
/// shapes first.
pub fn cell_candidates(
    colliders: &Vec<Collider>,
    entries: &Vec<SpatialEntry>,
    x: i32,
    y: i32,
) -> (r: Result<Vec<usize>, CompileError>)
    requires
        spatial_wf(entries@, colliders@.len() as int),
        -10000000 <= x <= 10000000,
        -10000000 <= y <= 10000000,
    ensures
        match r {
            Ok(cands) => {
                &&& forall|j: int|
                    0 <= j < cands@.len() ==> ((#[trigger] cands@[j]) as int) < colliders@.len()
                &&& exists|j: int|
                    0 <= j < cands@.len() && colliders@[(#[trigger] cands@[j]) as int].tag
                        == ColliderTag::CollisionGravitational
                &&& candidates_canonical(colliders@, cands@)
                &&& forall|k: usize|
                    spatial_present(entries@, x as int, y as int, k) ==> cands@.contains(k)
                &&& forall|k: usize, ddx: int, ddy: int|
                    -1 <= ddx <= 1 && -1 <= ddy <= 1 && !(ddx == 0 && ddy == 0)
                        && #[trigger] spatial_present(entries@, x as int + ddx, y as int + ddy, k)
                        && perimeter_reaches(colliders@[k as int], x as int, y as int)
                        ==> cands@.contains(k)
            },
            Err(_) => true,
        },
{
    let mut s: Vec<usize> = Vec::new();
    let ghost n = colliders@.len() as int;

    let mut e: usize = 0;
    while e < entries.len()
        invariant
            spatial_wf(entries@, n),
            n == colliders@.len() as int,
            e <= entries@.len(),
            forall|a: int, b: int|
                0 <= a < b < s@.len() ==> (#[trigger] s@[a]) < (#[trigger] s@[b]),
            forall|j: int| 0 <= j < s@.len() ==> ((#[trigger] s@[j]) as int) < n,
            forall|k: usize, i: int|
                0 <= i < e && (#[trigger] entries@[i]).cell_x == x && entries@[i].cell_y == y
                    && #[trigger] entries@[i].idxs@.contains(k) ==> s@.contains(k),
        decreases entries.len() - e,
    {
        if entries[e].cell_x == x && entries[e].cell_y == y {
            let idxs = &entries[e].idxs;
            let mut q: usize = 0;
            while q < idxs.len()
                invariant
                    spatial_wf(entries@, n),
                    n == colliders@.len() as int,
                    e < entries@.len(),
                    idxs == &entries@[e as int].idxs,
                    q <= idxs@.len(),
                    forall|a: int, b: int|
                        0 <= a < b < s@.len() ==> (#[trigger] s@[a]) < (#[trigger] s@[b]),
                    forall|j: int| 0 <= j < s@.len() ==> ((#[trigger] s@[j]) as int) < n,
                    forall|k: usize, i: int|
                        0 <= i < e && (#[trigger] entries@[i]).cell_x == x && entries@[i].cell_y
                            == y && #[trigger] entries@[i].idxs@.contains(k) ==> s@.contains(k),
                    forall|j: int|
                        0 <= j < q ==> s@.contains(#[trigger] entries@[e as int].idxs@[j]),
                decreases idxs.len() - q,
            {
                proof {
                    assert((entries@[e as int].idxs@[q as int] as int) < n);
                }
                insert_idx_bounded(&mut s, idxs[q], Ghost(n));
                q = q + 1;
            }
            proof {
                assert forall|k: usize| #[trigger] entries@[e as int].idxs@.contains(
                    k,
                ) implies s@.contains(k) by {
                    let j = choose|j: int|
                        0 <= j < entries@[e as int].idxs@.len() && entries@[e as int].idxs@[j]
                            == k;
                };
            }
        }
        e = e + 1;
    }

    let perim = crate::spiral::perimeter((x * BOX_SIZE, y * BOX_SIZE), BOX_SIZE);
    let ghost perimseq = perim@;
    let mut dx: i32 = -1;
    while dx <= 1
        invariant
            spatial_wf(entries@, n),
            n == colliders@.len() as int,
            -1 <= dx <= 2,
            forall|a: int, b: int|
                0 <= a < b < s@.len() ==> (#[trigger] s@[a]) < (#[trigger] s@[b]),
            forall|j: int| 0 <= j < s@.len() ==> ((#[trigger] s@[j]) as int) < n,
            forall|k: usize|
                spatial_present(entries@, x as int, y as int, k) ==> s@.contains(k),
            -10000000 <= x <= 10000000,
            -10000000 <= y <= 10000000,
            perim@.len() == 4 * BOX_SIZE,
            perim@ == perimseq,
            forall|i: int|
                0 <= i < 4 * BOX_SIZE ==> (#[trigger] perimseq[i]).0 as int
                    == crate::spiral::perimeter_point(
                    x as int * BOX_SIZE as int,
                    y as int * BOX_SIZE as int,
                    BOX_SIZE as int,
                    i,
                ).0 && perimseq[i].1 as int == crate::spiral::perimeter_point(
                    x as int * BOX_SIZE as int,
                    y as int * BOX_SIZE as int,
                    BOX_SIZE as int,
                    i,
                ).1,
            forall|k: usize, ddx: int, ddy: int|
                -1 <= ddx <= 1 && -1 <= ddy <= 1 && !(ddx == 0 && ddy == 0) && ddx < dx as int
                    && #[trigger] spatial_present(entries@, x as int + ddx, y as int + ddy, k)
                    && perimeter_reaches(colliders@[k as int], x as int, y as int)
                    ==> s@.contains(k),
        decreases 2 - dx,
    {
        let mut dy: i32 = -1;
        while dy <= 1
            invariant
                spatial_wf(entries@, n),
                n == colliders@.len() as int,
                -1 <= dx <= 1,
                -1 <= dy <= 2,
                forall|a: int, b: int|
                    0 <= a < b < s@.len() ==> (#[trigger] s@[a]) < (#[trigger] s@[b]),
                forall|j: int| 0 <= j < s@.len() ==> ((#[trigger] s@[j]) as int) < n,
                forall|k: usize|
                    spatial_present(entries@, x as int, y as int, k) ==> s@.contains(k),
                -10000000 <= x <= 10000000,
                -10000000 <= y <= 10000000,
                perim@.len() == 4 * BOX_SIZE,
                perim@ == perimseq,
                forall|i: int|
                    0 <= i < 4 * BOX_SIZE ==> (#[trigger] perimseq[i]).0 as int
                        == crate::spiral::perimeter_point(
                        x as int * BOX_SIZE as int,
                        y as int * BOX_SIZE as int,
                        BOX_SIZE as int,
                        i,
                    ).0 && perimseq[i].1 as int == crate::spiral::perimeter_point(
                        x as int * BOX_SIZE as int,
                        y as int * BOX_SIZE as int,
                        BOX_SIZE as int,
                        i,
                    ).1,
                forall|k: usize, ddx: int, ddy: int|
                    -1 <= ddx <= 1 && -1 <= ddy <= 1 && !(ddx == 0 && ddy == 0) && (ddx
                        < dx as int || (ddx == dx as int && ddy < dy as int))
                        && #[trigger] spatial_present(entries@, x as int + ddx, y as int + ddy, k)
                        && perimeter_reaches(colliders@[k as int], x as int, y as int)
                        ==> s@.contains(k),
            decreases 2 - dy,
        {
            if !(dx == 0 && dy == 0) {
                let mut e2: usize = 0;
                while e2 < entries.len()
                    invariant
                        spatial_wf(entries@, n),
                        n == colliders@.len() as int,
                        e2 <= entries@.len(),
                        -1 <= dx <= 1,
                        -1 <= dy <= 1,
                        !(dx == 0 && dy == 0),
                        forall|a: int, b: int|
                            0 <= a < b < s@.len() ==> (#[trigger] s@[a]) < (#[trigger] s@[b]),
                        forall|j: int| 0 <= j < s@.len() ==> ((#[trigger] s@[j]) as int) < n,
                        forall|k: usize|
                            spatial_present(entries@, x as int, y as int, k) ==> s@.contains(k),
                        -10000000 <= x <= 10000000,
                        -10000000 <= y <= 10000000,
                        perim@.len() == 4 * BOX_SIZE,
                        perim@ == perimseq,
                        forall|i: int|
                            0 <= i < 4 * BOX_SIZE ==> (#[trigger] perimseq[i]).0 as int
                                == crate::spiral::perimeter_point(
                                x as int * BOX_SIZE as int,
                                y as int * BOX_SIZE as int,
                                BOX_SIZE as int,
                                i,
                            ).0 && perimseq[i].1 as int == crate::spiral::perimeter_point(
                                x as int * BOX_SIZE as int,
                                y as int * BOX_SIZE as int,
                                BOX_SIZE as int,
                                i,
                            ).1,
                        forall|k: usize, ddx: int, ddy: int|
                            -1 <= ddx <= 1 && -1 <= ddy <= 1 && !(ddx == 0 && ddy == 0) && (ddx
                                < dx as int || (ddx == dx as int && ddy < dy as int))
                                && #[trigger] spatial_present(
                                entries@,
                                x as int + ddx,
                                y as int + ddy,
                                k,
                            ) && perimeter_reaches(colliders@[k as int], x as int, y as int)
                                ==> s@.contains(k),
                        forall|k: usize, i: int|
                            0 <= i < e2 && (#[trigger] entries@[i]).cell_x as int == x as int
                                + dx as int && entries@[i].cell_y as int == y as int + dy as int
                                && #[trigger] entries@[i].idxs@.contains(k) && perimeter_reaches(
                                colliders@[k as int],
                                x as int,
                                y as int,
                            ) ==> s@.contains(k),
                    decreases entries.len() - e2,
                {
                    if entries[e2].cell_x == x + dx && entries[e2].cell_y == y + dy {
                        let nidx = entries[e2].idxs.len();
                        let mut q: usize = 0;
                        while q < nidx
                            invariant
                                spatial_wf(entries@, n),
                                n == colliders@.len() as int,
                                e2 < entries@.len(),
                                entries@[e2 as int].cell_x as int == x as int + dx as int,
                                entries@[e2 as int].cell_y as int == y as int + dy as int,
                                nidx == entries@[e2 as int].idxs@.len(),
                                q <= nidx,
                                -10000000 <= x <= 10000000,
                                -10000000 <= y <= 10000000,
                                forall|a: int, b: int|
                                    0 <= a < b < s@.len() ==> (#[trigger] s@[a]) < (
                                    #[trigger] s@[b]),
                                forall|j: int|
                                    0 <= j < s@.len() ==> ((#[trigger] s@[j]) as int) < n,
                                forall|k: usize|
                                    spatial_present(entries@, x as int, y as int, k)
                                        ==> s@.contains(k),
                                perim@.len() == 4 * BOX_SIZE,
                                perim@ == perimseq,
                                forall|i: int|
                                    0 <= i < 4 * BOX_SIZE ==> (#[trigger] perimseq[i]).0 as int
                                        == crate::spiral::perimeter_point(
                                        x as int * BOX_SIZE as int,
                                        y as int * BOX_SIZE as int,
                                        BOX_SIZE as int,
                                        i,
                                    ).0 && perimseq[i].1 as int == crate::spiral::perimeter_point(
                                        x as int * BOX_SIZE as int,
                                        y as int * BOX_SIZE as int,
                                        BOX_SIZE as int,
                                        i,
                                    ).1,
                                forall|k: usize, ddx: int, ddy: int|
                                    -1 <= ddx <= 1 && -1 <= ddy <= 1 && !(ddx == 0 && ddy == 0)
                                        && (ddx < dx as int || (ddx == dx as int && ddy
                                        < dy as int)) && #[trigger] spatial_present(
                                        entries@,
                                        x as int + ddx,
                                        y as int + ddy,
                                        k,
                                    ) && perimeter_reaches(colliders@[k as int], x as int, y as int)
                                        ==> s@.contains(k),
                                forall|k: usize, i: int|
                                    0 <= i < e2 && (#[trigger] entries@[i]).cell_x as int
                                        == x as int + dx as int && entries@[i].cell_y as int
                                        == y as int + dy as int && #[trigger] entries@[
                                        i
                                    ].idxs@.contains(k) && perimeter_reaches(
                                        colliders@[k as int],
                                        x as int,
                                        y as int,
                                    ) ==> s@.contains(k),
                                forall|j: int|
                                    0 <= j < q && perimeter_reaches(
                                        colliders@[(#[trigger] entries@[e2 as int].idxs@[j]) as int],
                                        x as int,
                                        y as int,
                                    ) ==> s@.contains(entries@[e2 as int].idxs@[j]),
                            decreases nidx - q,
                        {
                            let idx = entries[e2].idxs[q];
                            proof {
                                assert((entries@[e2 as int].idxs@[q as int] as int) < n);
                            }
                            if !contains_idx_sorted(&s, idx) {
                                let mut pp: usize = 0;
                                let mut hit = false;
                                while pp < perim.len()
                                    invariant
                                        n == colliders@.len() as int,
                                        (idx as int) < n,
                                        pp <= perim@.len(),
                                        -10000000 <= x <= 10000000,
                                        -10000000 <= y <= 10000000,
                                        perim@.len() == 4 * BOX_SIZE,
                                        perim@ == perimseq,
                                        forall|i: int|
                                            0 <= i < 4 * BOX_SIZE ==> (
                                            #[trigger] perimseq[i]).0 as int
                                                == crate::spiral::perimeter_point(
                                                x as int * BOX_SIZE as int,
                                                y as int * BOX_SIZE as int,
                                                BOX_SIZE as int,
                                                i,
                                            ).0 && perimseq[i].1 as int
                                                == crate::spiral::perimeter_point(
                                                x as int * BOX_SIZE as int,
                                                y as int * BOX_SIZE as int,
                                                BOX_SIZE as int,
                                                i,
                                            ).1,
                                        hit == exists|pi: int|
                                            0 <= pi < pp && {
                                                let d = crate::player::closest_dist_sq(
                                                    colliders@[idx as int],
                                                    #[trigger] perimeter_sample(
                                                        x as int,
                                                        y as int,
                                                        pi,
                                                    ),
                                                );
                                                0 <= d <= 16384
                                            },
                                    decreases perim.len() - pp,
                                {
                                    let ppt = perim[pp];
                                    let point = Vec2 {
                                        x: crate::fixed::Fx::from_int(ppt.0),
                                        y: crate::fixed::Fx::from_int(ppt.1),
                                    };
                                    proof {
                                        assert(point == perimeter_sample(
                                            x as int,
                                            y as int,
                                            pp as int,
                                        ));
                                    }
                                    let c = &colliders[idx];
                                    if !closest_point_ok_exec(c, point) {
                                        return Err(CompileError::NumericRange);
                                    }
                                    let cp = c.closest_point(point);
                                    let d = cp.sub(point).mag_sq();
                                    proof {
                                        reveal(crate::player::closest_query_ok);
                                        reveal(crate::player::closest_dist_sq);
                                        reveal(crate::player::closest_point_vec);
                                        reveal(crate::map_data::dist_sq_raw);
                                        assert(d.raw as int == crate::player::closest_dist_sq(
                                            colliders@[idx as int],
                                            perimeter_sample(x as int, y as int, pp as int),
                                        ));
                                    }
                                    if 0 <= d.raw && d.raw <= 16384 {
                                        hit = true;
                                    }
                                    pp = pp + 1;
                                }
                                proof {
                                    assert(hit == perimeter_reaches(
                                        colliders@[idx as int],
                                        x as int,
                                        y as int,
                                    ));
                                }
                                if hit {
                                    insert_idx_bounded(&mut s, idx, Ghost(n));
                                }
                            }
                            q = q + 1;
                        }
                        proof {
                            assert forall|k: usize|
                                #[trigger] entries@[e2 as int].idxs@.contains(k)
                                    && perimeter_reaches(
                                    colliders@[k as int],
                                    x as int,
                                    y as int,
                                ) implies s@.contains(k) by {
                                let j = choose|j: int|
                                    0 <= j < entries@[e2 as int].idxs@.len() && entries@[
                                        e2 as int
                                    ].idxs@[j] == k;
                            };
                        }
                    }
                    e2 = e2 + 1;
                }
            }
            if !(dx == 0 && dy == 0) {
                proof {
                    assert forall|k: usize|
                        #[trigger] spatial_present(
                            entries@,
                            x as int + dx as int,
                            y as int + dy as int,
                            k,
                        ) && perimeter_reaches(
                            colliders@[k as int],
                            x as int,
                            y as int,
                        ) implies s@.contains(k) by {
                        let i = choose|i: int|
                            0 <= i < entries@.len() && (#[trigger] entries@[i]).cell_x as int
                                == x as int + dx as int && entries@[i].cell_y as int == y as int
                                + dy as int && entries@[i].idxs@.contains(k);
                    };
                }
            }
            dy = dy + 1;
        }
        dx = dx + 1;
    }

    let mut cxx: i32 = 0;
    while cxx <= 1
        invariant
            spatial_wf(entries@, n),
            n == colliders@.len() as int,
            0 <= cxx <= 2,
            -10000000 <= x <= 10000000,
            -10000000 <= y <= 10000000,
            forall|a: int, b: int|
                0 <= a < b < s@.len() ==> (#[trigger] s@[a]) < (#[trigger] s@[b]),
            forall|j: int| 0 <= j < s@.len() ==> ((#[trigger] s@[j]) as int) < n,
            forall|k: usize|
                spatial_present(entries@, x as int, y as int, k) ==> s@.contains(k),
            forall|k: usize, ddx: int, ddy: int|
                -1 <= ddx <= 1 && -1 <= ddy <= 1 && !(ddx == 0 && ddy == 0)
                    && #[trigger] spatial_present(entries@, x as int + ddx, y as int + ddy, k)
                    && perimeter_reaches(colliders@[k as int], x as int, y as int)
                    ==> s@.contains(k),
            cxx > 0 ==> exists|j: int|
                0 <= j < s@.len() && colliders@[(#[trigger] s@[j]) as int].tag
                    == ColliderTag::CollisionGravitational,
        decreases 2 - cxx,
    {
        let mut cyy: i32 = 0;
        while cyy <= 1
            invariant
                spatial_wf(entries@, n),
                n == colliders@.len() as int,
                0 <= cxx <= 1,
                0 <= cyy <= 2,
                -10000000 <= x <= 10000000,
                -10000000 <= y <= 10000000,
                forall|a: int, b: int|
                    0 <= a < b < s@.len() ==> (#[trigger] s@[a]) < (#[trigger] s@[b]),
                forall|j: int| 0 <= j < s@.len() ==> ((#[trigger] s@[j]) as int) < n,
                forall|k: usize|
                    spatial_present(entries@, x as int, y as int, k) ==> s@.contains(k),
                forall|k: usize, ddx: int, ddy: int|
                    -1 <= ddx <= 1 && -1 <= ddy <= 1 && !(ddx == 0 && ddy == 0)
                        && #[trigger] spatial_present(entries@, x as int + ddx, y as int + ddy, k)
                        && perimeter_reaches(colliders@[k as int], x as int, y as int)
                        ==> s@.contains(k),
                cyy > 0 ==> exists|j: int|
                    0 <= j < s@.len() && colliders@[(#[trigger] s@[j]) as int].tag
                        == ColliderTag::CollisionGravitational,
            decreases 2 - cyy,
        {
            let corner = Vec2 {
                x: crate::fixed::Fx::from_int((x + cxx) * BOX_SIZE),
                y: crate::fixed::Fx::from_int((y + cyy) * BOX_SIZE),
            };
            let g = match nearest_gravity_idx(colliders, corner) {
                Ok(g) => g,
                Err(e) => {
                    return Err(e);
                },
            };
            insert_idx_bounded(&mut s, g, Ghost(n));
            proof {
                assert(s@.contains(g));
                let j = choose|j: int| 0 <= j < s@.len() && s@[j] == g;
            }
            cyy = cyy + 1;
        }
        cxx = cxx + 1;
    }

    // canonical emission: curved shapes first, then lines, ascending
    let mut out: Vec<usize> = Vec::new();
    let mut j: usize = 0;
    while j < s.len()
        invariant
            n == colliders@.len() as int,
            j <= s@.len(),
            forall|a: int, b: int|
                0 <= a < b < s@.len() ==> (#[trigger] s@[a]) < (#[trigger] s@[b]),
            forall|jj: int| 0 <= jj < s@.len() ==> ((#[trigger] s@[jj]) as int) < n,
            forall|a: int, b: int|
                0 <= a < b < out@.len() ==> (#[trigger] out@[a]) < (#[trigger] out@[b]),
            forall|q: int|
                0 <= q < out@.len() ==> is_curved(colliders@[(#[trigger] out@[q]) as int])
                    && exists|t: int| 0 <= t < j && s@[t] == #[trigger] out@[q],
            forall|t: int|
                0 <= t < j && is_curved(colliders@[(#[trigger] s@[t]) as int]) ==> out@.contains(
                    s@[t],
                ),
        decreases s.len() - j,
    {
        let idx = s[j];
        let curved = match &colliders[idx].kind {
            ColliderKind::Line(_) => false,
            _ => true,
        };
        if curved {
            let ghost oldout = out@;
            out.push(idx);
            proof {
                assert(out@[out@.len() - 1] == idx);
                assert(s@[j as int] == idx);
                assert forall|a: int, b: int| 0 <= a < b < out@.len() implies (
                #[trigger] out@[a]) < (#[trigger] out@[b]) by {
                    if b == out@.len() - 1 {
                        let t = choose|t: int| 0 <= t < j && s@[t] == oldout[a];
                    }
                };
                assert forall|t: int|
                    0 <= t < j + 1 && is_curved(
                        colliders@[(#[trigger] s@[t]) as int],
                    ) implies out@.contains(s@[t]) by {
                    if t < j {
                        assert(oldout.contains(s@[t]));
                        let q = choose|q: int| 0 <= q < oldout.len() && oldout[q] == s@[t];
                        assert(out@[q] == s@[t]);
                    } else {
                        assert(out@[out@.len() - 1] == s@[t]);
                    }
                };
            }
        }
        j = j + 1;
    }
    let ghost len1 = out@.len();
    let mut j2: usize = 0;
    while j2 < s.len()
        invariant
            n == colliders@.len() as int,
            j2 <= s@.len(),
            len1 <= out@.len(),
            forall|a: int, b: int|
                0 <= a < b < s@.len() ==> (#[trigger] s@[a]) < (#[trigger] s@[b]),
            forall|jj: int| 0 <= jj < s@.len() ==> ((#[trigger] s@[jj]) as int) < n,
            forall|q: int|
                0 <= q < len1 ==> is_curved(colliders@[(#[trigger] out@[q]) as int]),
            forall|q: int|
                len1 <= q < out@.len() ==> !is_curved(colliders@[(#[trigger] out@[q]) as int])
                    && exists|t: int| 0 <= t < j2 && s@[t] == #[trigger] out@[q],
            forall|a: int, b: int|
                0 <= a < b < out@.len() && (b < len1 || a >= len1) ==> (#[trigger] out@[a]) < (
                #[trigger] out@[b]),
            forall|t: int|
                0 <= t < s@.len() && is_curved(colliders@[(#[trigger] s@[t]) as int])
                    ==> out@.contains(s@[t]),
            forall|t: int|
                0 <= t < j2 && !is_curved(colliders@[(#[trigger] s@[t]) as int])
                    ==> out@.contains(s@[t]),
            forall|q: int| 0 <= q < out@.len() ==> ((#[trigger] out@[q]) as int) < n,
        decreases s.len() - j2,
    {
        let idx = s[j2];
        let curved = match &colliders[idx].kind {
            ColliderKind::Line(_) => false,
            _ => true,
        };
        if !curved {
            let ghost oldout = out@;
            out.push(idx);
            proof {
                assert(out@[out@.len() - 1] == idx);
                assert(s@[j2 as int] == idx);
                assert forall|a: int, b: int|
                    0 <= a < b < out@.len() && (b < len1 || a >= len1) implies (
                #[trigger] out@[a]) < (#[trigger] out@[b]) by {
                    if b == out@.len() - 1 && a >= len1 {
                        let t = choose|t: int| 0 <= t < j2 && s@[t] == oldout[a];
                    }
                };
                assert forall|t: int|
                    0 <= t < s@.len() && is_curved(
                        colliders@[(#[trigger] s@[t]) as int],
                    ) implies out@.contains(s@[t]) by {
                    assert(oldout.contains(s@[t]));
                    let q = choose|q: int| 0 <= q < oldout.len() && oldout[q] == s@[t];
                    assert(out@[q] == s@[t]);
                };
                assert forall|t: int|
                    0 <= t < j2 + 1 && !is_curved(
                        colliders@[(#[trigger] s@[t]) as int],
                    ) implies out@.contains(s@[t]) by {
                    if t < j2 {
                        assert(oldout.contains(s@[t]));
                        let q = choose|q: int| 0 <= q < oldout.len() && oldout[q] == s@[t];
                        assert(out@[q] == s@[t]);
                    } else {
                        assert(out@[out@.len() - 1] == s@[t]);
                    }
                };
            }
        } else {
            proof {
                assert forall|t: int|
                    0 <= t < j2 + 1 && !is_curved(
                        colliders@[(#[trigger] s@[t]) as int],
                    ) implies out@.contains(s@[t]) by {};
            }
        }
        j2 = j2 + 1;
    }
    proof {
        // every index of the set appears in the canonical emission
        assert forall|k: usize| s@.contains(k) implies out@.contains(k) by {
            let t = choose|t: int| 0 <= t < s@.len() && s@[t] == k;
        };
        // the gravitational witness survives
        let g = choose|jj: int|
            0 <= jj < s@.len() && colliders@[(#[trigger] s@[jj]) as int].tag
                == ColliderTag::CollisionGravitational;
        assert(s@.contains(s@[g]));
        assert(out@.contains(s@[g]));
        let w = choose|t: int| 0 <= t < out@.len() && out@[t] == s@[g];
        // membership propagation from the set into the emission
        assert forall|k: usize|
            spatial_present(entries@, x as int, y as int, k) implies out@.contains(k) by {
            assert(s@.contains(k));
        };
        // the canonical order, from the per-pass clauses
        assert forall|a: int, b: int|
            0 <= a < b < out@.len() && is_curved(colliders@[(#[trigger] out@[a]) as int])
                == is_curved(colliders@[(#[trigger] out@[b]) as int]) implies out@[a] < out@[
            b
        ] by {
            if a < len1 && b >= len1 {
                assert(is_curved(colliders@[out@[a] as int]));
                assert(!is_curved(colliders@[out@[b] as int]));
            }
        };
    }
    Ok(out)
}

/// Whether a sorted index list holds the index.
fn contains_idx_sorted(v: &Vec<usize>, x: usize) -> (r: bool)
    ensures
        r == v@.contains(x),
{
    let mut i: usize = 0;
    while i < v.len()
        invariant
            i <= v@.len(),
            forall|j: int| 0 <= j < i ==> (#[trigger] v@[j]) != x,
        decreases v.len() - i,
    {
        if v[i] == x {
            proof {
                assert(v@[i as int] == x);
            }
            return true;
        }
        i = i + 1;
    }
    false
}

} // verus!
