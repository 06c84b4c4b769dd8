//! Shape lowering: the spatial compiler's first stage.
//!
//! Authored rectangles, circles, polygons and polylines are lowered to
//! circle, line-segment and arc colliders.  Interior polygon corners are
//! replaced by fillet circles (or arcs, for concave turns) so that the
//! surface normal never jumps at a vertex, the adjoining segments are
//! shortened to meet the fillet tangentially, and long segments are
//! subdivided into bounded-length pieces.
//!
//! Every function's contract pins its output to a spec-level mirror in the
//! same exact fixed-point arithmetic.  Degenerate authored input (a shape
//! the compiler does not support, an ellipse that is not a circle, a
//! polygon with too few points, or geometry on which a normalisation or
//! square root is undefined) aborts the compilation with an error.

use vstd::prelude::*;
use crate::collider::{Collider, ColliderKind, ColliderTag};
use crate::fixed::{fx_divi, fx_mul, fx_muli, fx_sub, Fx};
use crate::geom::{Arc, Circle, Line};
use crate::vec2::{fx2, v_add, v_cross, v_div, v_dot, v_magsq, v_mag, v_norm, v_scale, v_sub, Vec2};

verus! {

/// Why a compilation was aborted.
#[derive(Clone, Copy, PartialEq, Eq, Structural, Debug)]
pub enum CompileError {
    /// A collider layer holds a shape kind the compiler does not support.
    UnsupportedShape,
    /// An authored ellipse is not a circle.
    EllipseNotCircle,
    /// A polygon or polyline with fewer than two points.
    MalformedShape,
    /// A corner whose geometry leaves the fillet construction undefined.
    DegenerateCorner,
    /// A moving path without its required speed property.
    MissingPathSpeed,
    /// A named collider group without a path of the same name.
    NoPathForGroup,
    /// A level with no gravitational collider at all.
    NoGravitationalCollider,
    /// Geometry so large that a fixed-point intermediate left its range.
    NumericRange,
}

/// An authored shape, as read from the level file.
#[derive(Clone, PartialEq, Eq, Debug)]
pub enum AuthoredShape {
    Rect { width: Fx, height: Fx },
    Ellipse { width: Fx, height: Fx },
    Polygon { points: Vec<Vec2> },
    Polyline { points: Vec<Vec2> },
    Point,
}

/// An authored object: its instance name, its class (linking a moving
/// collider group to its path), its position, its optional corner radius
/// property and its shape.
#[derive(Clone, PartialEq, Eq, Debug)]
pub struct AuthoredObject {
    pub name: String,
    pub class: String,
    pub position: Vec2,
    pub radius: Option<Fx>,
    pub shape: AuthoredShape,
}

/// The colliders lowered from one authored object.
#[derive(Clone, PartialEq, Eq, Debug)]
pub struct ColliderGroup {
    pub name: String,
    pub class: String,
    pub colliders: Vec<Collider>,
}

/// The corner radius of an object: its authored property, or 2 world
/// units.
pub open spec fn radius_of_spec(radius: Option<Fx>) -> Fx {
    match radius {
        Some(r) => r,
        None => fx2(512),
    }
}

/// The zero vector.
pub open spec fn v_zero() -> Vec2 {
    Vec2 { x: Fx { raw: 0 }, y: Fx { raw: 0 } }
}

/// Length cap of one lowered line piece, raw (100 world units).
pub const PIECE_CAP_RAW: i32 = 25600;

/// The line-segment colliders that subdivide a run of the given raw
/// length, starting at `start` and walking along the unit vector
/// `normalized` with the precomputed `normal`: pieces of at most 100
/// units, the last piece holding the remainder.
pub open spec fn line_pieces_spec(
    start: Vec2,
    normalized: Vec2,
    normal: Vec2,
    remaining: Fx,
    tag: ColliderTag,
) -> Seq<Collider>
    decreases
            (if remaining.raw > 0 {
                remaining.raw as int
            } else {
                0
            }),
{
    if remaining.raw <= 0 {
        Seq::empty()
    } else {
        let seg = if remaining.raw <= PIECE_CAP_RAW {
            remaining
        } else {
            Fx { raw: PIECE_CAP_RAW }
        };
        let end = v_add(start, v_scale(normalized, seg));
        let col = Collider {
            kind: ColliderKind::Line(Line { start, end, normal, length: seg }),
            tag,
            velocity: v_zero(),
        };
        seq![col] + line_pieces_spec(
            end,
            normalized,
            normal,
            fx2(fx_sub(remaining.raw as int, seg.raw as int)),
            tag,
        )
    }
}

/// The lowered colliders of the segment from `start` to `end`: the empty
/// sequence for a degenerate segment, an error where the fixed-point
/// magnitude is undefined, else the subdivision pieces along the
/// normalised direction.
#[verifier::opaque]
pub open spec fn line_colliders_spec(start: Vec2, end: Vec2, tag: ColliderTag) -> Result<
    Seq<Collider>,
    CompileError,
> {
    let d = v_sub(end, start);
    if v_magsq(d) < 0 {
        Err(CompileError::NumericRange)
    } else if v_mag(d) == 0 {
        Ok(Seq::empty())
    } else {
        let normalized = v_norm(d);
        let normal = Vec2 { x: normalized.y, y: fx2(crate::fixed::fx_neg(normalized.x.raw as int)) };
        let back = v_sub(start, end);
        if v_magsq(back) < 0 {
            Err(CompileError::NumericRange)
        } else {
            let length = fx2(v_mag(back));
            Ok(line_pieces_spec(start, normalized, normal, length, tag))
        }
    }
}

/// Walks the subdivision pieces of one segment.
fn line_pieces(start: Vec2, normalized: Vec2, normal: Vec2, length: Fx, tag: ColliderTag) -> (r:
    Vec<Collider>)
    ensures
        r@ == line_pieces_spec(start, normalized, normal, length, tag),
{
    let mut out: Vec<Collider> = Vec::new();
    let mut cur = start;
    let mut remaining = length;
    proof {
        assert(out@ + line_pieces_spec(cur, normalized, normal, remaining, tag)
            == line_pieces_spec(start, normalized, normal, length, tag));
    }
    while remaining.raw > 0
        invariant
            out@ + line_pieces_spec(cur, normalized, normal, remaining, tag) == line_pieces_spec(
                start,
                normalized,
                normal,
                length,
                tag,
            ),
        decreases (if remaining.raw > 0 {
            remaining.raw as int
        } else {
            0
        }),
    {
        let seg = if remaining.raw <= PIECE_CAP_RAW {
            remaining
        } else {
            Fx { raw: PIECE_CAP_RAW }
        };
        let end = cur.add(normalized.scale(seg));
        let col = Collider {
            kind: ColliderKind::Line(Line { start: cur, end, normal, length: seg }),
            tag,
            velocity: Vec2 { x: Fx { raw: 0 }, y: Fx { raw: 0 } },
        };
        proof {
            assert(line_pieces_spec(cur, normalized, normal, remaining, tag) == seq![col]
                + line_pieces_spec(
                end,
                normalized,
                normal,
                fx2(fx_sub(remaining.raw as int, seg.raw as int)),
                tag,
            ));
        }
        out.push(col);
        cur = end;
        remaining = remaining.sub(seg);
    }
    proof {
        assert(out@ + line_pieces_spec(cur, normalized, normal, remaining, tag) =~= out@);
    }
    out
}

/// Lowers the segment from `start` to `end` into bounded-length line
/// colliders.
pub fn get_line_colliders(start: Vec2, end: Vec2, tag: ColliderTag) -> (r: Result<
    Vec<Collider>,
    CompileError,
>)
    ensures
        match r {
            Ok(v) => line_colliders_spec(start, end, tag) == Ok::<Seq<Collider>, CompileError>(
                v@,
            ),
            Err(e) => line_colliders_spec(start, end, tag) == Err::<
                Seq<Collider>,
                CompileError,
            >(e),
        },
{
    proof {
        reveal(line_colliders_spec);
    }
    let d = end.sub(start);
    let msq = d.mag_sq();
    if msq.raw < 0 {
        return Err(CompileError::NumericRange);
    }
    let mag = msq.sqrt();
    proof {
        crate::fixed::lemma_fx_sqrt_range(v_magsq(d));
    }
    if mag.raw == 0 {
        return Ok(Vec::new());
    }
    let normalized = d.div(mag);
    let normal = Vec2 { x: normalized.y, y: normalized.x.neg() };
    let back = start.sub(end);
    let bsq = back.mag_sq();
    if bsq.raw < 0 {
        return Err(CompileError::NumericRange);
    }
    let length = bsq.sqrt();
    proof {
        crate::fixed::lemma_fx_sqrt_range(v_magsq(back));
    }
    Ok(line_pieces(start, normalized, normal, length, tag))
}

/// Number of corners to round for a point run: every interior vertex, and
/// for a polygon also the two vertices of the closing turn.
pub open spec fn corner_count(n: int, is_polygon: bool) -> int {
    if is_polygon {
        n
    } else {
        n - 2
    }
}

/// The three vertex indices of the `i`-th corner.
pub open spec fn corner_triple(n: int, i: int) -> (int, int, int) {
    if i < n - 2 {
        (i, i + 1, i + 2)
    } else if i == n - 2 {
        (n - 2, n - 1, 0)
    } else {
        (n - 1, 0, 1)
    }
}

/// The fillet of the `i`-th corner of the point run, in world coordinates.
pub open spec fn corner_spec_at(
    origin: Vec2,
    points: Seq<Vec2>,
    radius: Fx,
    tag: ColliderTag,
    i: int,
) -> Result<(Collider, Vec2, Vec2), CompileError> {
    let t = corner_triple(points.len() as int, i);
    rounded_corner_spec(
        v_add(points[t.0], origin),
        v_add(points[t.1], origin),
        v_add(points[t.2], origin),
        radius,
        tag,
    )
}

/// The fillets of the first `i` corners: their colliders, and for each the
/// adjusted end point of its incoming segment and start point of its
/// outgoing segment.  An error is the first corner's error.
pub open spec fn corners_prefix(
    origin: Vec2,
    points: Seq<Vec2>,
    radius: Fx,
    tag: ColliderTag,
    i: int,
) -> Result<(Seq<Collider>, Seq<(Vec2, Vec2)>), CompileError>
    decreases i,
{
    if i <= 0 {
        Ok((Seq::empty(), Seq::empty()))
    } else {
        match corners_prefix(origin, points, radius, tag, i - 1) {
            Err(e) => Err(e),
            Ok(acc) => match corner_spec_at(origin, points, radius, tag, i - 1) {
                Err(e) => Err(e),
                Ok(c) => Ok((acc.0.push(c.0), acc.1.push((c.1, c.2)))),
            },
        }
    }
}

/// The connecting line colliders between the first `i` fillets: from each
/// fillet's outgoing start point to the next fillet's incoming end point.
pub open spec fn connectors_prefix(
    mods: Seq<(Vec2, Vec2)>,
    tag: ColliderTag,
    i: int,
) -> Result<Seq<Collider>, CompileError>
    decreases i,
{
    if i <= 1 {
        Ok(Seq::empty())
    } else {
        match connectors_prefix(mods, tag, i - 1) {
            Err(e) => Err(e),
            Ok(acc) => match line_colliders_spec(mods[i - 2].1, mods[i - 1].0, tag) {
                Err(e) => Err(e),
                Ok(ls) => Ok(acc + ls),
            },
        }
    }
}

/// A corner error at `i` corners is the error at every longer prefix.
proof fn lemma_corners_prefix_err(
    origin: Vec2,
    points: Seq<Vec2>,
    radius: Fx,
    tag: ColliderTag,
    i: int,
    j: int,
)
    requires
        corners_prefix(origin, points, radius, tag, i) is Err,
        i <= j,
    ensures
        corners_prefix(origin, points, radius, tag, j) == corners_prefix(
            origin,
            points,
            radius,
            tag,
            i,
        ),
    decreases j - i,
{
    if i < j {
        lemma_corners_prefix_err(origin, points, radius, tag, i, j - 1);
    }
}

/// A connector error at `i` corners is the error at every longer prefix.
proof fn lemma_connectors_prefix_err(mods: Seq<(Vec2, Vec2)>, tag: ColliderTag, i: int, j: int)
    requires
        connectors_prefix(mods, tag, i) is Err,
        i <= j,
    ensures
        connectors_prefix(mods, tag, j) == connectors_prefix(mods, tag, i),
    decreases j - i,
{
    if i < j {
        lemma_connectors_prefix_err(mods, tag, i, j - 1);
    }
}

/// The lowered colliders of one authored point run: for two points, the
/// plain segment; otherwise the corner fillets, then the connecting lines
/// between them, then the closing lines (for a polygon, back to the first
/// fillet; for a polyline, the attachment lines out to the run's first and
/// last authored points).
#[verifier::opaque]
pub open spec fn points_colliders_spec(
    origin: Vec2,
    points: Seq<Vec2>,
    radius: Fx,
    tag: ColliderTag,
    is_polygon: bool,
) -> Result<Seq<Collider>, CompileError> {
    let n = points.len() as int;
    if n == 2 {
        line_colliders_spec(v_add(points[0], origin), v_add(points[1], origin), tag)
    } else if n < 2 {
        Err(CompileError::MalformedShape)
    } else {
        let nc = corner_count(n, is_polygon);
        match corners_prefix(origin, points, radius, tag, nc) {
            Err(e) => Err(e),
            Ok(acc) => {
                let cols = acc.0;
                let mods = acc.1;
                match connectors_prefix(mods, tag, nc) {
                    Err(e) => Err(e),
                    Ok(conn) => {
                        let closing_start = mods[nc - 1].1;
                        if is_polygon {
                            match line_colliders_spec(closing_start, mods[0].0, tag) {
                                Err(e) => Err(e),
                                Ok(close) => Ok(cols + conn + close),
                            }
                        } else {
                            match line_colliders_spec(
                                v_add(points[0], origin),
                                mods[0].0,
                                tag,
                            ) {
                                Err(e) => Err(e),
                                Ok(first_attach) => match line_colliders_spec(
                                    closing_start,
                                    v_add(points[n - 1], origin),
                                    tag,
                                ) {
                                    Err(e) => Err(e),
                                    Ok(last_attach) => Ok(cols + conn + first_attach + last_attach),
                                },
                            }
                        }
                    },
                }
            },
        }
    }
}

/// Lowers one authored point run; see `points_colliders_spec`.
#[verifier::rlimit(100)]
pub fn handle_points_for_collider(
    origin: Vec2,
    points: &Vec<Vec2>,
    radius: Fx,
    tag: ColliderTag,
    is_polygon: bool,
) -> (r: Result<Vec<Collider>, CompileError>)
    ensures
        match r {
            Ok(v) => points_colliders_spec(origin, points@, radius, tag, is_polygon) == Ok::<
                Seq<Collider>,
                CompileError,
            >(v@),
            Err(e) => points_colliders_spec(origin, points@, radius, tag, is_polygon) == Err::<
                Seq<Collider>,
                CompileError,
            >(e),
        },
{
    proof {
        reveal(points_colliders_spec);
    }
    let n = points.len();
    if n == 2 {
        return get_line_colliders(points[0].add(origin), points[1].add(origin), tag);
    }
    if n < 2 {
        return Err(CompileError::MalformedShape);
    }
    let nc: usize = if is_polygon {
        n
    } else {
        n - 2
    };
    let mut cols: Vec<Collider> = Vec::new();
    let mut mods: Vec<(Vec2, Vec2)> = Vec::new();
    let mut i: usize = 0;
    while i < nc
        invariant
            n == points.len(),
            n >= 3,
            nc == corner_count(n as int, is_polygon),
            nc <= n,
            i <= nc,
            corners_prefix(origin, points@, radius, tag, i as int) == Ok::<
                (Seq<Collider>, Seq<(Vec2, Vec2)>),
                CompileError,
            >((cols@, mods@)),
            mods@.len() == i,
        decreases nc - i,
    {
        let (ia, io, ib) = if i < n - 2 {
            (i, i + 1, i + 2)
        } else if i == n - 2 {
            (n - 2, n - 1, 0)
        } else {
            (n - 1, 0, 1)
        };
        let pa = points[ia].add(origin);
        let po = points[io].add(origin);
        let pb = points[ib].add(origin);
        proof {
            assert(corner_triple(n as int, i as int) == (ia as int, io as int, ib as int));
            assert(corner_spec_at(origin, points@, radius, tag, i as int)
                == rounded_corner_spec(pa, po, pb, radius, tag));
        }
        let c = rounded_line_collider(pa, po, pb, radius, tag);
        match c {
            Err(e) => {
                proof {
                    assert(corners_prefix(origin, points@, radius, tag, i as int + 1) == Err::<
                        (Seq<Collider>, Seq<(Vec2, Vec2)>),
                        CompileError,
                    >(e));
                    lemma_corners_prefix_err(origin, points@, radius, tag, i as int + 1, nc as int);
                    reveal(points_colliders_spec);
                }
                return Err(e);
            },
            Ok(t) => {
                proof {
                    assert(corners_prefix(origin, points@, radius, tag, i as int + 1) == Ok::<
                        (Seq<Collider>, Seq<(Vec2, Vec2)>),
                        CompileError,
                    >((cols@.push(t.0), mods@.push((t.1, t.2)))));
                }
                cols.push(t.0);
                mods.push((t.1, t.2));
            },
        }
        i = i + 1;
    }
    let mut conn: Vec<Collider> = Vec::new();
    let mut k: usize = 1;
    while k < nc
        invariant
            n == points.len(),
            n >= 3,
            nc == corner_count(n as int, is_polygon),
            nc == mods.len(),
            nc >= 1,
            1 <= k <= nc,
            corners_prefix(origin, points@, radius, tag, nc as int) == Ok::<
                (Seq<Collider>, Seq<(Vec2, Vec2)>),
                CompileError,
            >((cols@, mods@)),
            connectors_prefix(mods@, tag, k as int) == Ok::<Seq<Collider>, CompileError>(conn@),
        decreases nc - k,
    {
        let ls = get_line_colliders(mods[k - 1].1, mods[k].0, tag);
        match ls {
            Err(e) => {
                proof {
                    assert(connectors_prefix(mods@, tag, k as int + 1) == Err::<
                        Seq<Collider>,
                        CompileError,
                    >(e));
                    lemma_connectors_prefix_err(mods@, tag, k as int + 1, nc as int);
                    reveal(points_colliders_spec);
                }
                return Err(e);
            },
            Ok(mut v) => {
                proof {
                    assert(connectors_prefix(mods@, tag, k as int + 1) == Ok::<
                        Seq<Collider>,
                        CompileError,
                    >(conn@ + v@));
                }
                conn.append(&mut v);
            },
        }
        k = k + 1;
    }
    let closing_start = mods[nc - 1].1;
    let mut out = cols;
    out.append(&mut conn);
    if is_polygon {
        let close = get_line_colliders(closing_start, mods[0].0, tag);
        match close {
            Err(e) => Err(e),
            Ok(mut v) => {
                out.append(&mut v);
                Ok(out)
            },
        }
    } else {
        let first_attach = get_line_colliders(points[0].add(origin), mods[0].0, tag);
        match first_attach {
            Err(e) => Err(e),
            Ok(mut v) => {
                out.append(&mut v);
                let last_attach = get_line_colliders(
                    closing_start,
                    points[n - 1].add(origin),
                    tag,
                );
                match last_attach {
                    Err(e) => Err(e),
                    Ok(mut w) => {
                        out.append(&mut w);
                        Ok(out)
                    },
                }
            },
        }
    }
}

/// The fillet construction at one corner `o` between the neighbouring
/// vertices `a` and `b`: the corner collider (a circle for a convex turn,
/// an arc for a concave one, at five times the radius), and the points at
/// which the two adjoining segments must now end and start to meet it
/// tangentially.  An error where a normalisation or square root along the
/// way is undefined.
#[verifier::opaque]
pub open spec fn rounded_corner_spec(
    a: Vec2,
    o: Vec2,
    b: Vec2,
    radius0: Fx,
    tag: ColliderTag,
) -> Result<(Collider, Vec2, Vec2), CompileError> {
    let x = v_sub(a, o);
    let y = v_sub(b, o);
    if v_magsq(x) < 0 || v_magsq(y) < 0 || v_mag(x) == 0 || v_mag(y) == 0 {
        Err(CompileError::DegenerateCorner)
    } else {
        let x_hat = v_norm(x);
        let y_hat = v_norm(y);
        let cross = v_cross(x_hat, y_hat);
        let radius = if cross >= 0 {
            fx2(fx_muli(radius0.raw as int, 5))
        } else {
            radius0
        };
        let s = v_add(x_hat, y_hat);
        let half = fx2(fx_divi(fx_sub(256, v_dot(x_hat, y_hat)), 2));
        if half.raw < 0 || v_magsq(s) < 0 || v_mag(s) == 0 {
            Err(CompileError::DegenerateCorner)
        } else {
            let denom = fx2(crate::fixed::fx_sqrt(half.raw as int));
            if denom.raw == 0 {
                Err(CompileError::DegenerateCorner)
            } else {
                let c = v_div(v_scale(v_norm(s), radius), denom);
                let p1 = v_scale(x_hat, fx2(v_dot(x_hat, c)));
                let p2 = v_scale(y_hat, fx2(v_dot(y_hat, c)));
                let center = v_add(o, c);
                if cross <= 0 {
                    let col = Collider {
                        kind: ColliderKind::Circle(Circle { position: center, radius }),
                        tag,
                        velocity: v_zero(),
                    };
                    Ok((col, v_add(o, p1), v_add(o, p2)))
                } else {
                    let d1 = v_sub(p1, c);
                    let d2 = v_sub(p2, c);
                    if v_magsq(d1) < 0 || v_magsq(d2) < 0 || v_mag(d1) == 0 || v_mag(d2) == 0 {
                        Err(CompileError::DegenerateCorner)
                    } else {
                        let col = Collider {
                            kind: ColliderKind::Arc(
                                Arc {
                                    circle: Circle { position: center, radius },
                                    start_pos: v_norm(d1),
                                    end_pos: v_norm(d2),
                                },
                            ),
                            tag,
                            velocity: v_zero(),
                        };
                        Ok((col, v_add(o, p1), v_add(o, p2)))
                    }
                }
            }
        }
    }
}

/// Builds the fillet at one corner; see `rounded_corner_spec`.
pub fn rounded_line_collider(a: Vec2, o: Vec2, b: Vec2, radius0: Fx, tag: ColliderTag) -> (r:
    Result<(Collider, Vec2, Vec2), CompileError>)
    ensures
        match r {
            Ok(v) => rounded_corner_spec(a, o, b, radius0, tag) == Ok::<
                (Collider, Vec2, Vec2),
                CompileError,
            >(v),
            Err(e) => rounded_corner_spec(a, o, b, radius0, tag) == Err::<
                (Collider, Vec2, Vec2),
                CompileError,
            >(e),
        },
{
    proof {
        reveal(rounded_corner_spec);
    }
    let x = a.sub(o);
    let y = b.sub(o);
    let xsq = x.mag_sq();
    let ysq = y.mag_sq();
    if xsq.raw < 0 || ysq.raw < 0 {
        return Err(CompileError::DegenerateCorner);
    }
    let xmag = xsq.sqrt();
    let ymag = ysq.sqrt();
    proof {
        crate::fixed::lemma_fx_sqrt_range(v_magsq(x));
        crate::fixed::lemma_fx_sqrt_range(v_magsq(y));
    }
    if xmag.raw == 0 || ymag.raw == 0 {
        return Err(CompileError::DegenerateCorner);
    }
    let x_hat = x.div(xmag);
    let y_hat = y.div(ymag);
    let cross = x_hat.cross(y_hat);
    let radius = if cross.raw >= 0 {
        radius0.mul_int(5)
    } else {
        radius0
    };
    let s = x_hat.add(y_hat);
    let dot = x_hat.dot(y_hat);
    let half = Fx { raw: 256 }.sub(dot).div_int(2);
    let ssq = s.mag_sq();
    if half.raw < 0 || ssq.raw < 0 {
        return Err(CompileError::DegenerateCorner);
    }
    let smag = ssq.sqrt();
    proof {
        crate::fixed::lemma_fx_sqrt_range(v_magsq(s));
    }
    if smag.raw == 0 {
        return Err(CompileError::DegenerateCorner);
    }
    let denom = half.sqrt();
    proof {
        crate::fixed::lemma_fx_sqrt_range(half.raw as int);
    }
    if denom.raw == 0 {
        return Err(CompileError::DegenerateCorner);
    }
    let s_hat = s.div(smag);
    let c = s_hat.scale(radius).div(denom);
    let p1 = x_hat.scale(x_hat.dot(c));
    let p2 = y_hat.scale(y_hat.dot(c));
    let center = o.add(c);
    if cross.raw <= 0 {
        let col = Collider {
            kind: ColliderKind::Circle(Circle { position: center, radius }),
            tag,
            velocity: Vec2 { x: Fx { raw: 0 }, y: Fx { raw: 0 } },
        };
        Ok((col, o.add(p1), o.add(p2)))
    } else {
        let d1 = p1.sub(c);
        let d2 = p2.sub(c);
        let d1sq = d1.mag_sq();
        let d2sq = d2.mag_sq();
        if d1sq.raw < 0 || d2sq.raw < 0 {
            return Err(CompileError::DegenerateCorner);
        }
        let d1mag = d1sq.sqrt();
        let d2mag = d2sq.sqrt();
        proof {
            crate::fixed::lemma_fx_sqrt_range(v_magsq(d1));
            crate::fixed::lemma_fx_sqrt_range(v_magsq(d2));
        }
        if d1mag.raw == 0 || d2mag.raw == 0 {
            return Err(CompileError::DegenerateCorner);
        }
        let col = Collider {
            kind: ColliderKind::Arc(
                Arc {
                    circle: Circle { position: center, radius },
                    start_pos: d1.div(d1mag),
                    end_pos: d2.div(d2mag),
                },
            ),
            tag,
            velocity: Vec2 { x: Fx { raw: 0 }, y: Fx { raw: 0 } },
        };
        Ok((col, o.add(p1), o.add(p2)))
    }
}


/// An authored moving-platform path, as read from the level file: name,
/// origin, relative points, whether it closes into a loop, and its
/// optional speed property.
#[derive(Clone, PartialEq, Eq, Debug)]
pub struct AuthoredPath {
    pub name: String,
    pub position: Vec2,
    pub points: Vec<Vec2>,
    pub closed: bool,
    pub speed: Option<Fx>,
}

/// An authored path with its speed resolved and its points made absolute.
#[derive(Clone, PartialEq, Eq, Debug)]
pub struct LoweredPath {
    pub name: String,
    pub points: Vec<Vec2>,
    pub complete: bool,
    pub speed: Fx,
}

/// The colliders lowered from one authored object.
#[verifier::opaque]
pub open spec fn object_colliders_spec(obj: AuthoredObject, tag: ColliderTag) -> Result<
    Seq<Collider>,
    CompileError,
> {
    match obj.shape {
        AuthoredShape::Rect { width, height } => points_colliders_spec(
            obj.position,
            seq![
                v_zero(),
                Vec2 { x: width, y: Fx { raw: 0 } },
                Vec2 { x: width, y: height },
                Vec2 { x: Fx { raw: 0 }, y: height },
            ],
            radius_of_spec(obj.radius),
            tag,
            true,
        ),
        AuthoredShape::Ellipse { width, height } => if width != height {
            Err(CompileError::EllipseNotCircle)
        } else {
            let half = fx2(fx_divi(width.raw as int, 2));
            let center = Vec2 {
                x: fx2(crate::fixed::fx_add(obj.position.x.raw as int, half.raw as int)),
                y: fx2(crate::fixed::fx_add(obj.position.y.raw as int, half.raw as int)),
            };
            Ok(
                seq![
                    Collider {
                        kind: ColliderKind::Circle(Circle { position: center, radius: half }),
                        tag,
                        velocity: v_zero(),
                    },
                ],
            )
        },
        AuthoredShape::Polygon { points } => points_colliders_spec(
            obj.position,
            points@,
            radius_of_spec(obj.radius),
            tag,
            true,
        ),
        AuthoredShape::Polyline { points } => points_colliders_spec(
            obj.position,
            points@,
            radius_of_spec(obj.radius),
            tag,
            false,
        ),
        AuthoredShape::Point => Err(CompileError::UnsupportedShape),
    }
}

/// Lowers one authored object to its colliders.
pub fn lower_object(obj: &AuthoredObject, tag: ColliderTag) -> (r: Result<
    Vec<Collider>,
    CompileError,
>)
    ensures
        match r {
            Ok(v) => object_colliders_spec(*obj, tag) == Ok::<Seq<Collider>, CompileError>(v@),
            Err(e) => object_colliders_spec(*obj, tag) == Err::<Seq<Collider>, CompileError>(e),
        },
{
    proof {
        reveal(object_colliders_spec);
    }
    let radius = match obj.radius {
        Some(r) => r,
        None => Fx { raw: 512 },
    };
    match &obj.shape {
        AuthoredShape::Rect { width, height } => {
            let w = *width;
            let h = *height;
            let zero = Fx { raw: 0 };
            let mut corners: Vec<Vec2> = Vec::new();
            corners.push(Vec2 { x: zero, y: zero });
            corners.push(Vec2 { x: w, y: zero });
            corners.push(Vec2 { x: w, y: h });
            corners.push(Vec2 { x: zero, y: h });
            proof {
                assert(corners@ =~= seq![
                    v_zero(),
                    Vec2 { x: w, y: Fx { raw: 0 } },
                    Vec2 { x: w, y: h },
                    Vec2 { x: Fx { raw: 0 }, y: h },
                ]);
            }
            handle_points_for_collider(obj.position, &corners, radius, tag, true)
        },
        AuthoredShape::Ellipse { width, height } => {
            if width.raw != height.raw {
                proof {
                    assert(*width != *height);
                }
                return Err(CompileError::EllipseNotCircle);
            }
            proof {
                assert(*width == *height);
            }
            let half = width.div_int(2);
            let center = Vec2 {
                x: obj.position.x.add(half),
                y: obj.position.y.add(half),
            };
            let mut out: Vec<Collider> = Vec::new();
            out.push(
                Collider {
                    kind: ColliderKind::Circle(Circle { position: center, radius: half }),
                    tag,
                    velocity: Vec2 { x: Fx { raw: 0 }, y: Fx { raw: 0 } },
                },
            );
            proof {
                assert(Ok::<Seq<Collider>, CompileError>(out@) =~= object_colliders_spec(
                    *obj,
                    tag,
                ));
            }
            Ok(out)
        },
        AuthoredShape::Polygon { points } => handle_points_for_collider(
            obj.position,
            points,
            radius,
            tag,
            true,
        ),
        AuthoredShape::Polyline { points } => handle_points_for_collider(
            obj.position,
            points,
            radius,
            tag,
            false,
        ),
        AuthoredShape::Point => Err(CompileError::UnsupportedShape),
    }
}

/// Whether an object is left out of a layer's lowering: a point marker of
/// a layer that carries markers (the lethal layer, whose point markers are
/// the recovery points).
pub open spec fn obj_skipped(obj: AuthoredObject, skip_points: bool) -> bool {
    skip_points && obj.shape is Point
}

/// The lowered groups of the first `i` objects of a layer; a skipped
/// marker contributes an empty group.
pub open spec fn layer_prefix(
    objs: Seq<AuthoredObject>,
    tag: ColliderTag,
    skip_points: bool,
    i: int,
) -> Result<Seq<Seq<Collider>>, CompileError>
    decreases i,
{
    if i <= 0 {
        Ok(Seq::empty())
    } else {
        match layer_prefix(objs, tag, skip_points, i - 1) {
            Err(e) => Err(e),
            Ok(acc) => if obj_skipped(objs[i - 1], skip_points) {
                Ok(acc.push(Seq::empty()))
            } else {
                match object_colliders_spec(objs[i - 1], tag) {
                    Err(e) => Err(e),
                    Ok(cols) => Ok(acc.push(cols)),
                }
            },
        }
    }
}

/// The length of an error-free layer prefix is the number of objects
/// processed.
pub proof fn lemma_layer_prefix_len(
    objs: Seq<AuthoredObject>,
    tag: ColliderTag,
    skip_points: bool,
    i: int,
)
    requires
        i >= 0,
        layer_prefix(objs, tag, skip_points, i) is Ok,
    ensures
        (layer_prefix(objs, tag, skip_points, i)->Ok_0).len() == i,
    decreases i,
{
    if i > 0 {
        assert(layer_prefix(objs, tag, skip_points, i - 1) is Ok) by {
            if layer_prefix(objs, tag, skip_points, i - 1) is Err {
                lemma_layer_prefix_err(objs, tag, skip_points, i - 1, i);
            }
        };
        lemma_layer_prefix_len(objs, tag, skip_points, i - 1);
    }
}

/// Lowers every object of a layer, keeping each object's name and class
/// with its colliders.  With `skip_points`, point markers are skipped
/// (they lower to empty groups).
pub fn extract_from_layer(objs: &Vec<AuthoredObject>, tag: ColliderTag, skip_points: bool) -> (r:
    Result<Vec<ColliderGroup>, CompileError>)
    ensures
        match r {
            Ok(gs) => {
                &&& gs@.len() == objs@.len()
                &&& layer_prefix(objs@, tag, skip_points, objs@.len() as int) is Ok
                &&& forall|i: int|
                    0 <= i < gs@.len() ==> if obj_skipped(objs@[i], skip_points) {
                        (#[trigger] gs@[i]).name@ == Seq::<char>::empty() && gs@[i].class@
                            == Seq::<char>::empty() && gs@[i].colliders@ == Seq::<
                            Collider,
                        >::empty()
                    } else {
                        (#[trigger] gs@[i]).name@ == objs@[i].name@ && gs@[i].class@ == objs@[
                            i
                        ].class@ && gs@[i].colliders@ == layer_prefix(
                            objs@,
                            tag,
                            skip_points,
                            objs@.len() as int,
                        )->Ok_0[i]
                    }
            },
            Err(e) => layer_prefix(objs@, tag, skip_points, objs@.len() as int) == Err::<
                Seq<Seq<Collider>>,
                CompileError,
            >(e),
        },
{
    let mut out: Vec<ColliderGroup> = Vec::new();
    let mut i: usize = 0;
    while i < objs.len()
        invariant
            i <= objs.len(),
            out@.len() == i,
            layer_prefix(objs@, tag, skip_points, i as int) is Ok,
            forall|j: int|
                0 <= j < i ==> if obj_skipped(objs@[j], skip_points) {
                    (#[trigger] out@[j]).name@ == Seq::<char>::empty() && out@[j].class@
                        == Seq::<char>::empty() && out@[j].colliders@ == Seq::<
                        Collider,
                    >::empty()
                } else {
                    (#[trigger] out@[j]).name@ == objs@[j].name@ && out@[j].class@ == objs@[
                        j
                    ].class@ && out@[j].colliders@ == layer_prefix(
                        objs@,
                        tag,
                        skip_points,
                        i as int,
                    )->Ok_0[j]
                },
        decreases objs.len() - i,
    {
        proof {
            lemma_layer_prefix_len(objs@, tag, skip_points, i as int);
        }
        let skip_this = skip_points && match &objs[i].shape {
            AuthoredShape::Point => true,
            _ => false,
        };
        if skip_this {
            proof {
                assert(layer_prefix(objs@, tag, skip_points, i as int + 1) == Ok::<
                    Seq<Seq<Collider>>,
                    CompileError,
                >(layer_prefix(objs@, tag, skip_points, i as int)->Ok_0.push(
                    Seq::<Collider>::empty(),
                )));
            }
            out.push(ColliderGroup { name: String::new(), class: String::new(), colliders: Vec::new() });
        } else {
            let cols = lower_object(&objs[i], tag);
            match cols {
                Err(e) => {
                    proof {
                        lemma_layer_prefix_err(
                            objs@,
                            tag,
                            skip_points,
                            i as int + 1,
                            objs@.len() as int,
                        );
                    }
                    return Err(e);
                },
                Ok(v) => {
                    let name = <String as vstd::string::StringExecFns>::from_str(
                        objs[i].name.as_str(),
                    );
                    let class = <String as vstd::string::StringExecFns>::from_str(
                        objs[i].class.as_str(),
                    );
                    proof {
                        assert(layer_prefix(objs@, tag, skip_points, i as int + 1) == Ok::<
                            Seq<Seq<Collider>>,
                            CompileError,
                        >(layer_prefix(objs@, tag, skip_points, i as int)->Ok_0.push(v@)));
                    }
                    out.push(ColliderGroup { name, class, colliders: v });
                },
            }
        }
        i = i + 1;
    }
    Ok(out)
}

/// A lowering error at `i` objects is the error at every longer prefix.
pub proof fn lemma_layer_prefix_err(
    objs: Seq<AuthoredObject>,
    tag: ColliderTag,
    skip_points: bool,
    i: int,
    j: int,
)
    requires
        layer_prefix(objs, tag, skip_points, i) is Err,
        i <= j,
    ensures
        layer_prefix(objs, tag, skip_points, j) == layer_prefix(objs, tag, skip_points, i),
    decreases j - i,
{
    if i < j {
        lemma_layer_prefix_err(objs, tag, skip_points, i, j - 1);
    }
}

/// The recovery points of the first `i` objects of the lethal layer: the
/// positions of its point markers.
pub open spec fn recovery_prefix(objs: Seq<AuthoredObject>, i: int) -> Seq<Vec2>
    decreases i,
{
    if i <= 0 {
        Seq::empty()
    } else {
        let acc = recovery_prefix(objs, i - 1);
        if objs[i - 1].shape is Point {
            acc.push(objs[i - 1].position)
        } else {
            acc
        }
    }
}

/// Collects the authored recovery points: the point markers of the lethal
/// layer.
pub fn extract_recovery_points(objs: &Vec<AuthoredObject>) -> (r: Vec<Vec2>)
    ensures
        r@ == recovery_prefix(objs@, objs@.len() as int),
{
    let mut out: Vec<Vec2> = Vec::new();
    let mut i: usize = 0;
    while i < objs.len()
        invariant
            i <= objs.len(),
            out@ == recovery_prefix(objs@, i as int),
        decreases objs.len() - i,
    {
        match &objs[i].shape {
            AuthoredShape::Point => {
                out.push(objs[i].position);
            },
            _ => {},
        }
        i = i + 1;
    }
    out
}

/// The lowered paths of the first `i` authored paths: each must carry its
/// speed property, and its points are made absolute.
pub open spec fn paths_prefix(paths: Seq<AuthoredPath>, i: int) -> Result<
    Seq<(Seq<char>, Seq<Vec2>, bool, Fx)>,
    CompileError,
>
    decreases i,
{
    if i <= 0 {
        Ok(Seq::empty())
    } else {
        match paths_prefix(paths, i - 1) {
            Err(e) => Err(e),
            Ok(acc) => match paths[i - 1].speed {
                None => Err(CompileError::MissingPathSpeed),
                Some(sp) => Ok(
                    acc.push(
                        (
                            paths[i - 1].name@,
                            Seq::new(
                                paths[i - 1].points@.len(),
                                |k: int| v_add(paths[i - 1].points@[k], paths[i - 1].position),
                            ),
                            paths[i - 1].closed,
                            sp,
                        ),
                    ),
                ),
            },
        }
    }
}

/// The length of an error-free path prefix is the number processed.
proof fn lemma_paths_prefix_len(paths: Seq<AuthoredPath>, i: int)
    requires
        i >= 0,
        paths_prefix(paths, i) is Ok,
    ensures
        (paths_prefix(paths, i)->Ok_0).len() == i,
    decreases i,
{
    if i > 0 {
        assert(paths_prefix(paths, i - 1) is Ok) by {
            if paths_prefix(paths, i - 1) is Err {
                lemma_paths_prefix_err(paths, i - 1, i);
            }
        };
        lemma_paths_prefix_len(paths, i - 1);
    }
}

/// A path error at `i` paths is the error at every longer prefix.
proof fn lemma_paths_prefix_err(paths: Seq<AuthoredPath>, i: int, j: int)
    requires
        paths_prefix(paths, i) is Err,
        i <= j,
    ensures
        paths_prefix(paths, j) == paths_prefix(paths, i),
    decreases j - i,
{
    if i < j {
        lemma_paths_prefix_err(paths, i, j - 1);
    }
}

/// Lowers the authored paths: resolves each path's speed and makes its
/// points absolute.
pub fn extract_paths(paths: &Vec<AuthoredPath>) -> (r: Result<Vec<LoweredPath>, CompileError>)
    ensures
        match r {
            Ok(ps) => {
                &&& paths_prefix(paths@, paths@.len() as int) is Ok
                &&& ps@.len() == paths@.len()
                &&& forall|i: int|
                    0 <= i < ps@.len() ==> {
                        let m = paths_prefix(paths@, paths@.len() as int)->Ok_0[i];
                        (#[trigger] ps@[i]).name@ == m.0 && ps@[i].points@ == m.1 && ps@[
                            i
                        ].complete == m.2 && ps@[i].speed == m.3
                    }
            },
            Err(e) => paths_prefix(paths@, paths@.len() as int) == Err::<
                Seq<(Seq<char>, Seq<Vec2>, bool, Fx)>,
                CompileError,
            >(e),
        },
{
    let mut out: Vec<LoweredPath> = Vec::new();
    let mut i: usize = 0;
    while i < paths.len()
        invariant
            i <= paths.len(),
            out@.len() == i,
            paths_prefix(paths@, i as int) is Ok,
            forall|j: int|
                0 <= j < i ==> {
                    let m = paths_prefix(paths@, i as int)->Ok_0[j];
                    (#[trigger] out@[j]).name@ == m.0 && out@[j].points@ == m.1 && out@[
                        j
                    ].complete == m.2 && out@[j].speed == m.3
                },
        decreases paths.len() - i,
    {
        proof {
            lemma_paths_prefix_len(paths@, i as int);
        }
        let sp = match paths[i].speed {
            None => {
                proof {
                    lemma_paths_prefix_err(paths@, i as int + 1, paths@.len() as int);
                }
                return Err(CompileError::MissingPathSpeed);
            },
            Some(sp) => sp,
        };
        let mut abs_points: Vec<Vec2> = Vec::new();
        let mut k: usize = 0;
        let npts = paths[i].points.len();
        while k < npts
            invariant
                k <= npts,
                npts == paths@[i as int].points@.len(),
                i < paths@.len(),
                abs_points@.len() == k,
                forall|t: int|
                    0 <= t < k ==> #[trigger] abs_points@[t] == v_add(
                        paths@[i as int].points@[t],
                        paths@[i as int].position,
                    ),
            decreases npts - k,
        {
            abs_points.push(paths[i].points[k].add(paths[i].position));
            k = k + 1;
        }
        let name = <String as vstd::string::StringExecFns>::from_str(paths[i].name.as_str());
        proof {
            assert(abs_points@ =~= Seq::new(
                paths@[i as int].points@.len(),
                |t: int| v_add(paths@[i as int].points@[t], paths@[i as int].position),
            ));
        }
        proof {
            assert(paths_prefix(paths@, i as int + 1) == Ok::<
                Seq<(Seq<char>, Seq<Vec2>, bool, Fx)>,
                CompileError,
            >(paths_prefix(paths@, i as int)->Ok_0.push(
                (
                    paths@[i as int].name@,
                    Seq::new(
                        paths@[i as int].points@.len(),
                        |k: int| v_add(paths@[i as int].points@[k], paths@[i as int].position),
                    ),
                    paths@[i as int].closed,
                    sp,
                ),
            )));
        }
        out.push(LoweredPath { name, points: abs_points, complete: paths[i].closed, speed: sp });
        i = i + 1;
    }
    proof {
        lemma_paths_prefix_len(paths@, paths@.len() as int);
    }
    Ok(out)
}

} // verus!
