//! Integer line rasterization for the spatial compiler: the digital line
//! between two grid points (through an outside line-drawing crate) and the
//! deduplicated walk of the grid cells that line passes through.

use vstd::prelude::*;
use crate::fixed::div_floor_i32;

verus! {

/// The points of the digital line from `start` (inclusive) to `end`
/// (exclusive), as the outside line-drawing iterator yields them.
pub uninterp spec fn bresenham_points(start: (i32, i32), end: (i32, i32)) -> Seq<(i32, i32)>;

/// Relies on bresenham::Bresenham: yields the points of the digital line
/// from `start` (inclusive) to `end` (exclusive), a function of the two
/// endpoints alone; the walk is empty exactly when the endpoints coincide,
/// and every point stays inside the endpoints' bounding box.
#[verifier::external_body]
fn line_points(start: (i32, i32), end: (i32, i32)) -> (r: Vec<(i32, i32)>)
    ensures
        r@ == bresenham_points(start, end),
        start == end ==> r@.len() == 0,
        start != end ==> r@.len() >= 1 && r@[0] == start,
        forall|i: int|
            0 <= i < r@.len() ==> {
                let p = #[trigger] r@[i];
                &&& (if start.0 <= end.0 {
                    start.0 <= p.0 <= end.0
                } else {
                    end.0 <= p.0 <= start.0
                })
                &&& (if start.1 <= end.1 {
                    start.1 <= p.1 <= end.1
                } else {
                    end.1 <= p.1 <= start.1
                })
            },
{
    bresenham::Bresenham::new(
        (start.0 as isize, start.1 as isize),
        (end.0 as isize, end.1 as isize),
    ).map(|p| (p.0 as i32, p.1 as i32)).collect()
}

/// The grid cell holding a point, at the given cell size.
pub open spec fn cell_of(p: (i32, i32), bs: int) -> (i32, i32) {
    ((p.0 as int / bs) as i32, (p.1 as int / bs) as i32)
}

/// The cells of `points` from index `i` on, with each cell kept only where
/// it differs from the one last kept (`last`).
pub open spec fn dedup_cells_from(
    points: Seq<(i32, i32)>,
    bs: int,
    i: int,
    last: (i32, i32),
) -> Seq<(i32, i32)>
    decreases points.len() - i,
{
    if i < 0 || i >= points.len() || bs <= 0 {
        Seq::empty()
    } else {
        let c = cell_of(points[i], bs);
        if c == last {
            dedup_cells_from(points, bs, i + 1, last)
        } else {
            seq![c] + dedup_cells_from(points, bs, i + 1, c)
        }
    }
}

/// The distinct consecutive grid cells the point walk passes through,
/// starting from the sentinel cell no real cell equals.
pub open spec fn dedup_cells(points: Seq<(i32, i32)>, bs: int) -> Seq<(i32, i32)> {
    dedup_cells_from(points, bs, 0, (i32::MIN, i32::MIN))
}

/// Walks the cells the given points pass through, dropping consecutive
/// repeats.
pub fn cells_of_points(points: &Vec<(i32, i32)>, box_size: i32) -> (r: Vec<(i32, i32)>)
    requires
        box_size > 0,
    ensures
        r@ == dedup_cells(points@, box_size as int),
{
    let mut out: Vec<(i32, i32)> = Vec::new();
    let mut current: (i32, i32) = (i32::MIN, i32::MIN);
    let mut i: usize = 0;
    proof {
        assert(out@ + dedup_cells_from(points@, box_size as int, 0, current) == dedup_cells(
            points@,
            box_size as int,
        ));
    }
    while i < points.len()
        invariant
            box_size > 0,
            i <= points.len(),
            out@ + dedup_cells_from(points@, box_size as int, i as int, current) == dedup_cells(
                points@,
                box_size as int,
            ),
        decreases points.len() - i,
    {
        let p = points[i];
        let cx = div_floor_i32(p.0, box_size);
        let cy = div_floor_i32(p.1, box_size);
        proof {
            assert(cell_of(points@[i as int], box_size as int) == (cx, cy));
        }
        if !(current.0 == cx && current.1 == cy) {
            proof {
                assert(out@ + dedup_cells_from(points@, box_size as int, i as int, current)
                    == out@ + seq![(cx, cy)] + dedup_cells_from(
                    points@,
                    box_size as int,
                    i as int + 1,
                    (cx, cy),
                ));
            }
            current = (cx, cy);
            out.push(current);
        }
        i = i + 1;
    }
    proof {
        assert(out@ + dedup_cells_from(points@, box_size as int, points@.len() as int, current)
            =~= out@);
    }
    out
}

/// The distinct consecutive grid cells the digital line between two points
/// passes through, at the given cell size.
pub fn boxes_line_crosses_through(start: (i32, i32), end: (i32, i32), box_size: i32) -> (r: Vec<
    (i32, i32),
>)
    requires
        box_size > 0,
    ensures
        r@ == dedup_cells(bresenham_points(start, end), box_size as int),
{
    let points = line_points(start, end);
    cells_of_points(&points, box_size)
}

} // verus!
