//! Deterministic cell-enumeration helpers for the spatial compiler: an
//! expanding square-ring ("spiral") walk around a centre cell, and the
//! perimeter of a square of cells.

use vstd::prelude::*;

verus! {

/// Which side of the current ring the spiral walk is on.
#[derive(Clone, Copy, PartialEq, Eq, Structural, Debug)]
pub enum Side {
    Center,
    Top,
    Right,
    Bottom,
    Left,
}

/// State of the expanding square-ring walk around a centre cell.
#[derive(Clone, Copy, PartialEq, Eq, Structural, Debug)]
pub struct SpiralIterator {
    pub side: Side,
    pub side_length: i32,
    pub x: i32,
    pub y: i32,
    pub center_x: i32,
    pub center_y: i32,
}

/// Bound on the ring radius, which keeps every offset far from the integer
/// limits.
pub const SPIRAL_MAX_RING: i32 = 1000000;

/// Bound on the centre coordinates, so that centre plus offset always fits.
pub const SPIRAL_MAX_CENTER: i32 = 1000000000;

/// The walk's state is well formed: the offset stays inside the current
/// ring and all coordinates are far from the integer limits.
pub open spec fn spiral_wf(s: SpiralIterator) -> bool {
    &&& 1 <= s.side_length <= SPIRAL_MAX_RING
    &&& -SPIRAL_MAX_CENTER <= s.center_x <= SPIRAL_MAX_CENTER
    &&& -SPIRAL_MAX_CENTER <= s.center_y <= SPIRAL_MAX_CENTER
    &&& match s.side {
        Side::Center => s.x == 0 && s.y == 0 && s.side_length == 1,
        Side::Top => s.y == -(s.side_length - 1) && -(s.side_length - 1) <= s.x
            < s.side_length,
        Side::Right => s.x == s.side_length && -(s.side_length - 1) <= s.y < s.side_length,
        Side::Bottom => s.y == s.side_length && -s.side_length < s.x <= s.side_length,
        Side::Left => s.x == -s.side_length && -s.side_length < s.y <= s.side_length,
    }
}

/// The walk's state after `k` steps.
pub open spec fn spiral_after(s: SpiralIterator, k: nat) -> SpiralIterator
    decreases k,
{
    if k == 0 {
        s
    } else {
        spiral_step_spec(spiral_after(s, (k - 1) as nat))
    }
}

/// One step of the walk: move along the current side, turning at the ring
/// corners and growing the ring after each full turn.
pub open spec fn spiral_step_spec(s: SpiralIterator) -> SpiralIterator {
    match s.side {
        Side::Center => SpiralIterator { side: Side::Top, ..s },
        Side::Top => {
            let x = s.x + 1;
            if x == s.side_length {
                SpiralIterator { side: Side::Right, x: x as i32, ..s }
            } else {
                SpiralIterator { x: x as i32, ..s }
            }
        },
        Side::Right => {
            let y = s.y + 1;
            if y == s.side_length {
                SpiralIterator { side: Side::Bottom, y: y as i32, ..s }
            } else {
                SpiralIterator { y: y as i32, ..s }
            }
        },
        Side::Bottom => {
            let x = s.x - 1;
            if x == -s.side_length {
                SpiralIterator { side: Side::Left, x: x as i32, ..s }
            } else {
                SpiralIterator { x: x as i32, ..s }
            }
        },
        Side::Left => {
            let y = s.y - 1;
            if y == -s.side_length {
                SpiralIterator {
                    side: Side::Top,
                    side_length: (s.side_length + 1) as i32,
                    y: y as i32,
                    ..s
                }
            } else {
                SpiralIterator { y: y as i32, ..s }
            }
        },
    }
}

impl SpiralIterator {
    /// A walk starting at the given centre cell.
    pub fn new(center: (i32, i32)) -> (r: SpiralIterator)
        ensures
            r == (SpiralIterator {
                side: Side::Center,
                side_length: 1,
                x: 0,
                y: 0,
                center_x: center.0,
                center_y: center.1,
            }),
    {
        SpiralIterator {
            side: Side::Center,
            side_length: 1,
            x: 0,
            y: 0,
            center_x: center.0,
            center_y: center.1,
        }
    }

    /// Advances the walk by one step and returns the cell it now stands on.
    pub fn next(&mut self) -> (r: (i32, i32))
        requires
            spiral_wf(*old(self)),
            old(self).side_length < SPIRAL_MAX_RING,
        ensures
            *final(self) == spiral_step_spec(*old(self)),
            spiral_wf(*final(self)),
            r.0 == final(self).center_x + final(self).x,
            r.1 == final(self).center_y + final(self).y,
    {
        match self.side {
            Side::Center => self.side = Side::Top,
            Side::Top => {
                self.x = self.x + 1;
                if self.x == self.side_length {
                    self.side = Side::Right;
                }
            },
            Side::Right => {
                self.y = self.y + 1;
                if self.y == self.side_length {
                    self.side = Side::Bottom;
                }
            },
            Side::Bottom => {
                self.x = self.x - 1;
                if self.x == -self.side_length {
                    self.side = Side::Left;
                }
            },
            Side::Left => {
                self.y = self.y - 1;
                if self.y == -self.side_length {
                    self.side_length = self.side_length + 1;
                    self.side = Side::Top;
                }
            },
        }

        (self.center_x + self.x, self.center_y + self.y)
    }

    /// The first `n` cells the walk visits, in order: the `i`-th output is
    /// the cell the walk stands on after `i + 1` steps.
    pub fn take_cells(&mut self, n: usize) -> (r: Vec<(i32, i32)>)
        requires
            spiral_wf(*old(self)),
            old(self).side_length + n < SPIRAL_MAX_RING,
        ensures
            r@.len() == n,
            spiral_wf(*final(self)),
            *final(self) == spiral_after(*old(self), n as nat),
            forall|i: int|
                0 <= i < n ==> {
                    let s = spiral_after(*old(self), (i + 1) as nat);
                    (#[trigger] r@[i]).0 as int == s.center_x + s.x && r@[i].1 as int == s.center_y
                        + s.y
                },
    {
        let mut out: Vec<(i32, i32)> = Vec::new();
        let ghost start_ring = self.side_length as int;
        let ghost start = *self;
        let mut i: usize = 0;
        while i < n
            invariant
                out@.len() == i,
                i <= n,
                spiral_wf(*self),
                self.side_length <= start_ring + i,
                start_ring + n < SPIRAL_MAX_RING,
                start_ring == start.side_length,
                spiral_wf(start),
                *self == spiral_after(start, i as nat),
                forall|j: int|
                    0 <= j < i ==> {
                        let s = spiral_after(start, (j + 1) as nat);
                        (#[trigger] out@[j]).0 as int == s.center_x + s.x && out@[j].1 as int
                            == s.center_y + s.y
                    },
            decreases n - i,
        {
            let c = self.next();
            proof {
                assert(spiral_after(start, (i + 1) as nat) == spiral_step_spec(
                    spiral_after(start, i as nat),
                ));
            }
            out.push(c);
            i = i + 1;
        }
        out
    }
}

/// The `i`-th cell of the perimeter of the square of cells whose top-left
/// corner is `(tx, ty)` and whose side is `size` cells: first the top edge
/// left to right, then the right edge top to bottom, then the bottom edge
/// right to left, then the left edge bottom to top.
pub open spec fn perimeter_point(tx: int, ty: int, size: int, i: int) -> (int, int) {
    if i < size {
        (tx + i, ty)
    } else if i < 2 * size {
        (tx + size, ty + (i - size))
    } else if i < 3 * size {
        (tx + size - (i - 2 * size), ty + size)
    } else {
        (tx, ty + size - (i - 3 * size))
    }
}

/// The cells on the perimeter of a square of cells, walked clockwise from
/// the top-left corner.
pub fn perimeter(top_corner: (i32, i32), size: i32) -> (r: Vec<(i32, i32)>)
    requires
        size > 0,
        size <= 1000000,
        -1000000000 <= top_corner.0 <= 1000000000,
        -1000000000 <= top_corner.1 <= 1000000000,
    ensures
        r@.len() == 4 * size,
        forall|i: int|
            0 <= i < 4 * size ==> (#[trigger] r@[i]).0 == perimeter_point(
                top_corner.0 as int,
                top_corner.1 as int,
                size as int,
                i,
            ).0 && r@[i].1 == perimeter_point(
                top_corner.0 as int,
                top_corner.1 as int,
                size as int,
                i,
            ).1,
{
    let tx = top_corner.0;
    let ty = top_corner.1;
    let mut out: Vec<(i32, i32)> = Vec::new();
    let mut i: i32 = 0;
    while i < size
        invariant
            0 <= i <= size,
            size <= 1000000,
            -1000000000 <= tx <= 1000000000,
            -1000000000 <= ty <= 1000000000,
            out@.len() == i,
            forall|j: int|
                0 <= j < i ==> #[trigger] out@[j] == ((tx + j) as i32, ty),
        decreases size - i,
    {
        out.push((tx + i, ty));
        i = i + 1;
    }
    let mut i: i32 = 0;
    while i < size
        invariant
            0 <= i <= size,
            size <= 1000000,
            -1000000000 <= tx <= 1000000000,
            -1000000000 <= ty <= 1000000000,
            out@.len() == size + i,
            forall|j: int|
                0 <= j < size ==> #[trigger] out@[j] == ((tx + j) as i32, ty),
            forall|j: int|
                size <= j < size + i ==> #[trigger] out@[j] == ((tx + size) as i32, (ty + (j
                    - size)) as i32),
        decreases size - i,
    {
        out.push((tx + size, ty + i));
        i = i + 1;
    }
    let mut i: i32 = 0;
    while i < size
        invariant
            0 <= i <= size,
            size <= 1000000,
            -1000000000 <= tx <= 1000000000,
            -1000000000 <= ty <= 1000000000,
            out@.len() == 2 * size + i,
            forall|j: int|
                0 <= j < size ==> #[trigger] out@[j] == ((tx + j) as i32, ty),
            forall|j: int|
                size <= j < 2 * size ==> #[trigger] out@[j] == ((tx + size) as i32, (ty + (j
                    - size)) as i32),
            forall|j: int|
                2 * size <= j < 2 * size + i ==> #[trigger] out@[j] == ((tx + size - (j - 2
                    * size)) as i32, (ty + size) as i32),
        decreases size - i,
    {
        out.push((tx + size - i, ty + size));
        i = i + 1;
    }
    let mut i: i32 = 0;
    while i < size
        invariant
            0 <= i <= size,
            size <= 1000000,
            -1000000000 <= tx <= 1000000000,
            -1000000000 <= ty <= 1000000000,
            out@.len() == 3 * size + i,
            forall|j: int|
                0 <= j < size ==> #[trigger] out@[j] == ((tx + j) as i32, ty),
            forall|j: int|
                size <= j < 2 * size ==> #[trigger] out@[j] == ((tx + size) as i32, (ty + (j
                    - size)) as i32),
            forall|j: int|
                2 * size <= j < 3 * size ==> #[trigger] out@[j] == ((tx + size - (j - 2
                    * size)) as i32, (ty + size) as i32),
            forall|j: int|
                3 * size <= j < 3 * size + i ==> #[trigger] out@[j] == (tx, (ty + size - (j - 3
                    * size)) as i32),
        decreases size - i,
    {
        out.push((tx, ty + size - i));
        i = i + 1;
    }
    out
}

} // verus!
