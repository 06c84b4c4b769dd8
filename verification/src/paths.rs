//! The dynamic-collider path engine: moving platforms follow authored
//! paths, are loaded and unloaded by proximity to the player, and derive a
//! per-tick velocity that carries the player along.

use vstd::prelude::*;
use crate::collider::{kind_translated_spec, Collider};
use crate::fixed::{Fx, Fx24, FX24_ONE};
use crate::map_data::{CompiledMap, map_wf, PathDef};
use crate::vec2::{v_add, v_sub, Vec2};

verus! {

/// Which way along its path a platform is travelling.
#[derive(Clone, Copy, PartialEq, Eq, Structural, Debug)]
pub enum PathDirection {
    Forwards,
    Backwards,
}

/// One loaded moving platform: which path it follows, its progress state,
/// and its collider group translated to the current position.
#[derive(Clone, PartialEq, Eq, Debug)]
pub struct DynamicCollider {
    pub path_idx: usize,
    pub current_path_element_idx: usize,
    pub current_position: Vec2,
    pub colliders: Vec<Collider>,
    pub direction: PathDirection,
    pub path_index_timer: Fx24,
}

/// The loaded-platform collection, the only runtime-mutable geometry.
#[derive(Clone, PartialEq, Eq, Debug)]
pub struct Terrain {
    pub loaded_dynamic_colliders: Vec<DynamicCollider>,
}

/// A loaded platform is consistent with the compiled map: its path index
/// is valid and its segment index stays inside the path, never at the
/// first point while travelling backwards.
pub open spec fn dyn_wf(dc: DynamicCollider, m: CompiledMap) -> bool {
    &&& (dc.path_idx as int) < m.paths.len()
    &&& (dc.current_path_element_idx as int) < m.paths[dc.path_idx as int].points.len()
    &&& (dc.direction == PathDirection::Backwards ==> dc.current_path_element_idx >= 1)
    &&& (dc.direction == PathDirection::Forwards && !m.paths[dc.path_idx as int].complete
        ==> (dc.current_path_element_idx as int) < m.paths[dc.path_idx as int].points.len() - 1)
    &&& (dc.direction == PathDirection::Backwards ==> !m.paths[dc.path_idx as int].complete)
    &&& 0 <= dc.path_index_timer.raw < FX24_ONE
}

/// All loaded platforms are consistent with the compiled map.
pub open spec fn terrain_wf(t: Terrain, m: CompiledMap) -> bool {
    forall|i: int|
        0 <= i < t.loaded_dynamic_colliders.len() ==> dyn_wf(
            #[trigger] t.loaded_dynamic_colliders[i],
            m,
        )
}

/// The segment a platform is about to travel: the point it comes from, the
/// point it goes to, and the timer increment of that segment.
pub open spec fn segment_spec(dc: DynamicCollider, p: PathDef) -> (Vec2, Vec2, Fx24) {
    let n = p.points.len() as int;
    let i = dc.current_path_element_idx as int;
    match dc.direction {
        PathDirection::Forwards => {
            let from = p.points[i];
            let to = p.points[if i + 1 == n {
                0
            } else {
                i + 1
            }];
            (from.point, to.point, from.incrementer)
        },
        PathDirection::Backwards => {
            let from = p.points[i];
            let to = p.points[i - 1];
            (from.point, to.point, to.incrementer)
        },
    }
}

/// The new timer after adding the segment increment.
pub open spec fn stepped_timer(dc: DynamicCollider, p: PathDef) -> Fx24 {
    Fx24 {
        raw: crate::fixed::fx_add(
            dc.path_index_timer.raw as int,
            segment_spec(dc, p).2.raw as int,
        ) as i32,
    }
}

/// Whether this tick crosses a path point: the advanced timer reached one.
pub open spec fn step_rolls_over(dc: DynamicCollider, p: PathDef) -> bool {
    stepped_timer(dc, p).raw >= FX24_ONE
}

/// The platform's segment index and direction after a rollover: advance to
/// the next point, wrapping for a closed loop and reversing at either end
/// of an open path.
pub open spec fn rolled_index_direction(dc: DynamicCollider, p: PathDef) -> (
    usize,
    PathDirection,
) {
    let n = p.points.len() as int;
    match dc.direction {
        PathDirection::Forwards => {
            let i = dc.current_path_element_idx as int + 1;
            if !p.complete {
                if i == n - 1 {
                    (i as usize, PathDirection::Backwards)
                } else {
                    (i as usize, PathDirection::Forwards)
                }
            } else if i == n {
                (0 as usize, PathDirection::Forwards)
            } else {
                (i as usize, PathDirection::Forwards)
            }
        },
        PathDirection::Backwards => {
            let i = dc.current_path_element_idx as int - 1;
            if i == 0 {
                (0 as usize, PathDirection::Forwards)
            } else {
                (i as usize, PathDirection::Backwards)
            }
        },
    }
}

/// The interpolated position for a non-rollover tick: linearly between the
/// segment's endpoints by the fractional timer.
pub open spec fn interpolated_position(dc: DynamicCollider, p: PathDef) -> Vec2 {
    let seg = segment_spec(dc, p);
    let t = stepped_timer(dc, p);
    let one_minus = Fx { raw: crate::fixed::fx_sub(FX24_ONE as int, t.raw as int) as i32 };
    let fr = Fx { raw: (one_minus.raw as int / 65536) as i32 };
    let to_t = Fx { raw: (t.raw as int / 65536) as i32 };
    v_add(
        crate::vec2::v_scale(seg.0, fr),
        crate::vec2::v_scale(seg.1, to_t),
    )
}

/// Advances one loaded platform by one tick; see the step spec functions.
#[verifier::rlimit(100)]
fn update_one(dc: &mut DynamicCollider, p: &PathDef)
    requires
        (old(dc).current_path_element_idx as int) < p.points.len(),
        old(dc).direction == PathDirection::Backwards ==> old(dc).current_path_element_idx >= 1,
        old(dc).direction == PathDirection::Forwards && !p.complete ==> (old(dc).current_path_element_idx as int) < p.points.len() - 1,
        old(dc).direction == PathDirection::Backwards ==> !p.complete,
        0 <= old(dc).path_index_timer.raw < FX24_ONE,
        forall|k: int|
            0 <= k < p.points.len() ==> 0 <= (#[trigger] p.points[k]).incrementer.raw
                <= FX24_ONE,
        p.points.len() >= 2,
    ensures
        final(dc).path_idx == old(dc).path_idx,
        if step_rolls_over(*old(dc), *p) {
            &&& final(dc).path_index_timer.raw as int == crate::fixed::fx_sub(
                stepped_timer(*old(dc), *p).raw as int,
                FX24_ONE as int,
            )
            &&& (
            final(dc).current_path_element_idx,
            final(dc).direction,
            ) == rolled_index_direction(*old(dc), *p)
            &&& final(dc).current_position == old(dc).current_position
            &&& final(dc).colliders@ == old(dc).colliders@
        } else {
            &&& final(dc).path_index_timer == stepped_timer(*old(dc), *p)
            &&& final(dc).current_path_element_idx == old(dc).current_path_element_idx
            &&& final(dc).direction == old(dc).direction
            &&& final(dc).current_position == interpolated_position(*old(dc), *p)
            &&& final(dc).colliders@.len() == old(dc).colliders@.len()
            &&& forall|k: int|
                0 <= k < old(dc).colliders@.len() ==> {
                    let v = v_sub(
                        interpolated_position(*old(dc), *p),
                        old(dc).current_position,
                    );
                    (#[trigger] final(dc).colliders@[k]).kind == kind_translated_spec(
                        old(dc).colliders@[k].kind,
                        v,
                    ) && final(dc).colliders@[k].tag == old(dc).colliders@[k].tag && final(dc).colliders@[k].velocity == v
                }
        },
        p.points.len() >= 2 && (final(dc).current_path_element_idx as int) < p.points.len() && (
        final(dc).direction == PathDirection::Backwards ==> final(dc).current_path_element_idx
            >= 1) && (final(dc).direction == PathDirection::Forwards && !p.complete ==> (final(dc).current_path_element_idx as int) < p.points.len() - 1) && (final(dc).direction
            == PathDirection::Backwards ==> !p.complete) && 0 <= final(dc).path_index_timer.raw
            < FX24_ONE,
{
    let n = p.points.len();
    let i = dc.current_path_element_idx;
    let (from, to, frames) = match dc.direction {
        PathDirection::Forwards => {
            let from = &p.points[i];
            let to = &p.points[if i + 1 == n {
                0
            } else {
                i + 1
            }];
            (from.point, to.point, from.incrementer)
        },
        PathDirection::Backwards => {
            let from = &p.points[i];
            let to = &p.points[i - 1];
            (from.point, to.point, to.incrementer)
        },
    };

    let stepped = dc.path_index_timer.add(frames);
    proof {
        crate::fixed::lemma_crop32_exact(dc.path_index_timer.raw + frames.raw);
    }
    if stepped.ge_one() {
        proof {
            crate::fixed::lemma_crop32_exact(stepped.raw - FX24_ONE);
        }
        dc.path_index_timer = stepped.sub_one();
        match dc.direction {
            PathDirection::Forwards => {
                let next = i + 1;
                if !p.complete {
                    if next == n - 1 {
                        dc.direction = PathDirection::Backwards;
                    }
                    dc.current_path_element_idx = next;
                } else if next == n {
                    dc.current_path_element_idx = 0;
                } else {
                    dc.current_path_element_idx = next;
                }
            },
            PathDirection::Backwards => {
                let next = i - 1;
                dc.current_path_element_idx = next;
                if next == 0 {
                    dc.direction = PathDirection::Forwards;
                }
            },
        }
    } else {
        dc.path_index_timer = stepped;
        let one_minus_t = stepped.one_minus().to_fx();
        let t = stepped.to_fx();
        let next_position = from.scale(one_minus_t).add(to.scale(t));
        let velocity = next_position.sub(dc.current_position);
        dc.current_position = dc.current_position.add(velocity);
        proof {
            assert(dc.current_position == interpolated_position(*old(dc), *p)) by {
                assert(crate::vec2::v_add(
                    old(dc).current_position,
                    v_sub(interpolated_position(*old(dc), *p), old(dc).current_position),
                ) == interpolated_position(*old(dc), *p)) by {
                    crate::vec2::lemma_add_sub_cancel(
                        old(dc).current_position,
                        interpolated_position(*old(dc), *p),
                    );
                };
            };
        }
        let mut k: usize = 0;
        while k < dc.colliders.len()
            invariant
                !step_rolls_over(*old(dc), *p),
                dc.path_idx == old(dc).path_idx,
                dc.current_path_element_idx == old(dc).current_path_element_idx,
                (dc.current_path_element_idx as int) < p.points.len(),
                dc.direction == old(dc).direction,
                dc.path_index_timer == stepped_timer(*old(dc), *p),
                dc.current_position == interpolated_position(*old(dc), *p),
                velocity == v_sub(interpolated_position(*old(dc), *p), old(dc).current_position),
                dc.colliders@.len() == old(dc).colliders@.len(),
                k <= dc.colliders@.len(),
                forall|t2: int|
                    0 <= t2 < k ==> (#[trigger] dc.colliders@[t2]).kind == kind_translated_spec(
                        old(dc).colliders@[t2].kind,
                        velocity,
                    ) && dc.colliders@[t2].tag == old(dc).colliders@[t2].tag && dc.colliders@[
                        t2
                    ].velocity == velocity,
                forall|t2: int|
                    k <= t2 < dc.colliders@.len() ==> #[trigger] dc.colliders@[t2] == old(
                        dc,
                    ).colliders@[t2],
            decreases dc.colliders.len() - k,
        {
            let mut c = dc.colliders[k];
            c.apply_velocity(velocity);
            dc.colliders.set(k, c);
            k = k + 1;
        }
    }
}

/// One platform advanced by one tick: on a rollover tick the segment
/// index and direction advance and the position and colliders stay; on an
/// interpolation tick the position moves to the blend of the segment's
/// endpoints and every collider of the group is translated by exactly the
/// tick's displacement, which it records as its velocity.
pub open spec fn platform_step_post(before: DynamicCollider, after: DynamicCollider, p: PathDef)
    -> bool {
    &&& after.path_idx == before.path_idx
    &&& if step_rolls_over(before, p) {
        &&& after.path_index_timer.raw as int == crate::fixed::fx_sub(
            stepped_timer(before, p).raw as int,
            FX24_ONE as int,
        )
        &&& (after.current_path_element_idx, after.direction) == rolled_index_direction(
            before,
            p,
        )
        &&& after.current_position == before.current_position
        &&& after.colliders@ == before.colliders@
    } else {
        &&& after.path_index_timer == stepped_timer(before, p)
        &&& after.current_path_element_idx == before.current_path_element_idx
        &&& after.direction == before.direction
        &&& after.current_position == interpolated_position(before, p)
        &&& after.colliders@.len() == before.colliders@.len()
        &&& forall|k: int|
            0 <= k < before.colliders@.len() ==> {
                let v = v_sub(interpolated_position(before, p), before.current_position);
                (#[trigger] after.colliders@[k]).kind == kind_translated_spec(
                    before.colliders@[k].kind,
                    v,
                ) && after.colliders@[k].tag == before.colliders@[k].tag && after.colliders@[
                    k
                ].velocity == v
            }
    }
}

/// The terrain after every loaded platform advanced one tick.
pub open spec fn update_paths_post(m: CompiledMap, before: Terrain, after: Terrain) -> bool {
    &&& terrain_wf(after, m)
    &&& after.loaded_dynamic_colliders@.len() == before.loaded_dynamic_colliders@.len()
    &&& forall|i: int|
        0 <= i < before.loaded_dynamic_colliders@.len() ==> platform_step_post(
            before.loaded_dynamic_colliders@[i],
            #[trigger] after.loaded_dynamic_colliders@[i],
            m.paths[before.loaded_dynamic_colliders@[i].path_idx as int],
        )
}

/// Advances every loaded platform by one tick; see `platform_step_post`.
pub fn update_paths(t: &mut Terrain, m: &CompiledMap)
    requires
        map_wf(*m),
        terrain_wf(*old(t), *m),
    ensures
        update_paths_post(*m, *old(t), *final(t)),
{
    let mut i: usize = 0;
    while i < t.loaded_dynamic_colliders.len()
        invariant
            map_wf(*m),
            t.loaded_dynamic_colliders@.len() == old(t).loaded_dynamic_colliders@.len(),
            i <= t.loaded_dynamic_colliders@.len(),
            forall|j: int|
                i <= j < t.loaded_dynamic_colliders@.len() ==> #[trigger] t.loaded_dynamic_colliders@[j]
                    == old(t).loaded_dynamic_colliders@[j],
            forall|j: int|
                0 <= j < t.loaded_dynamic_colliders@.len() ==> dyn_wf(
                    #[trigger] t.loaded_dynamic_colliders@[j],
                    *m,
                ),
            forall|j: int|
                0 <= j < i ==> platform_step_post(
                    old(t).loaded_dynamic_colliders@[j],
                    #[trigger] t.loaded_dynamic_colliders@[j],
                    m.paths[old(t).loaded_dynamic_colliders@[j].path_idx as int],
                ),
        decreases t.loaded_dynamic_colliders.len() - i,
    {
        let path_idx = t.loaded_dynamic_colliders[i].path_idx;
        let mut dc = DynamicCollider {
            path_idx,
            current_path_element_idx: 0,
            current_position: Vec2 { x: Fx { raw: 0 }, y: Fx { raw: 0 } },
            colliders: Vec::new(),
            direction: PathDirection::Forwards,
            path_index_timer: Fx24 { raw: 0 },
        };
        std::mem::swap(&mut dc, &mut t.loaded_dynamic_colliders[i]);
        update_one(&mut dc, &m.paths[path_idx]);
        std::mem::swap(&mut dc, &mut t.loaded_dynamic_colliders[i]);
        i = i + 1;
    }
}


/// The path indices wanted near a world cell: the compiled path-cell
/// entry's list, or empty where there is none.
pub open spec fn wanted_paths_spec(m: CompiledMap, cx: int, cy: int) -> Seq<usize> {
    if exists|i: int|
        0 <= i < m.path_cells.len() && (#[trigger] m.path_cells[i]).cell_x == cx && m.path_cells[
            i
        ].cell_y == cy {
        let i = choose|i: int|
            0 <= i < m.path_cells.len() && (#[trigger] m.path_cells[i]).cell_x == cx
                && m.path_cells[i].cell_y == cy;
        m.path_cells[i].paths@
    } else {
        Seq::empty()
    }
}

/// The freshly loaded state of a platform: standing at its path's first
/// point, travelling forwards, with a zero timer and the authored
/// colliders.
pub open spec fn initial_dc_spec(dc: DynamicCollider, m: CompiledMap, p: usize) -> bool {
    &&& dc.path_idx == p
    &&& dc.current_path_element_idx == 0
    &&& dc.current_position == m.paths[p as int].points[0].point
    &&& dc.colliders@ == m.paths[p as int].colliders@
    &&& dc.direction == PathDirection::Forwards
    &&& dc.path_index_timer.raw == 0
}

/// The terrain after loading and unloading by proximity: every loaded
/// platform follows a wanted valid path and is either one of the
/// previously loaded platforms, unchanged, or freshly instantiated at its
/// path's first point; every previously loaded wanted platform survives
/// unchanged; and every valid wanted path is loaded.
pub open spec fn load_paths_post(
    m: CompiledMap,
    player_position: Vec2,
    before: Terrain,
    after: Terrain,
) -> bool {
    let w = wanted_paths_spec(
        m,
        crate::map_data::div_floor_spec(
            crate::fixed::fx_floor(player_position.x.raw as int),
            crate::map_data::PATH_BOX_SIZE as int,
        ),
        crate::map_data::div_floor_spec(
            crate::fixed::fx_floor(player_position.y.raw as int),
            crate::map_data::PATH_BOX_SIZE as int,
        ),
    );
    &&& terrain_wf(after, m)
    &&& forall|i: int|
        0 <= i < after.loaded_dynamic_colliders@.len() ==> {
            let dc = #[trigger] after.loaded_dynamic_colliders@[i];
            &&& w.contains(dc.path_idx)
            &&& (dc.path_idx as int) < m.paths.len()
            &&& ((exists|a: int|
                0 <= a < before.loaded_dynamic_colliders@.len() && dc
                    == before.loaded_dynamic_colliders@[a]) || initial_dc_spec(dc, m, dc.path_idx))
        }
    &&& forall|a: int|
        0 <= a < before.loaded_dynamic_colliders@.len() && w.contains(
            (#[trigger] before.loaded_dynamic_colliders@[a]).path_idx,
        ) ==> exists|i: int|
            0 <= i < after.loaded_dynamic_colliders@.len() && after.loaded_dynamic_colliders@[i]
                == before.loaded_dynamic_colliders@[a]
    &&& forall|p: usize|
        w.contains(p) && (p as int) < m.paths.len() ==> exists|i: int|
            0 <= i < after.loaded_dynamic_colliders@.len() && (
            #[trigger] after.loaded_dynamic_colliders@[i]).path_idx == p
}

/// Loads and unloads platforms by proximity: platforms whose paths are no
/// longer wanted near the player are discarded, wanted paths not yet
/// loaded are instantiated at their first point (state is not preserved
/// across unload and reload), and already-loaded wanted platforms keep
/// their progress state.  See `load_paths_post`.
pub fn load_paths(t: &mut Terrain, m: &CompiledMap, player_position: Vec2)
    requires
        map_wf(*m),
        terrain_wf(*old(t), *m),
    ensures
        load_paths_post(*m, player_position, *old(t), *final(t)),
{
    let px = player_position.x.floor();
    let py = player_position.y.floor();
    let ghost w = wanted_paths_spec(
        *m,
        crate::map_data::div_floor_spec(px as int, crate::map_data::PATH_BOX_SIZE as int),
        crate::map_data::div_floor_spec(py as int, crate::map_data::PATH_BOX_SIZE as int),
    );
    let mut wanted: Vec<usize> = Vec::new();
    match m.get_paths(px, py) {
        Some(v) => {
            let mut k: usize = 0;
            while k < v.len()
                invariant
                    k <= v@.len(),
                    wanted@ == v@.subrange(0, k as int),
                decreases v.len() - k,
            {
                wanted.push(v[k]);
                proof {
                    assert(wanted@ =~= v@.subrange(0, k as int + 1));
                }
                k = k + 1;
            }
            proof {
                assert(wanted@ =~= v@);
                let i = choose|i: int|
                    0 <= i < m.path_cells.len() && (#[trigger] m.path_cells[i]).cell_x as int
                        == crate::map_data::div_floor_spec(
                        px as int,
                        crate::map_data::PATH_BOX_SIZE as int,
                    ) && m.path_cells[i].cell_y as int == crate::map_data::div_floor_spec(
                        py as int,
                        crate::map_data::PATH_BOX_SIZE as int,
                    ) && m.path_cells[i].paths == *v;
                let j = choose|j: int|
                    0 <= j < m.path_cells.len() && (#[trigger] m.path_cells[j]).cell_x as int
                        == px as int / crate::map_data::PATH_BOX_SIZE as int && m.path_cells[
                        j
                    ].cell_y as int == py as int / crate::map_data::PATH_BOX_SIZE as int;
                crate::map_data::lemma_path_cell_key_unique(*m, i, j);
                assert(w == m.path_cells[j].paths@);
                assert(wanted@ == w);
            }
        },
        None => {
            proof {
                assert(wanted@ =~= Seq::<usize>::empty());
                if exists|i: int|
                    0 <= i < m.path_cells.len() && (#[trigger] m.path_cells[i]).cell_x as int
                        == px as int / crate::map_data::PATH_BOX_SIZE as int && m.path_cells[
                        i
                    ].cell_y as int == py as int / crate::map_data::PATH_BOX_SIZE as int {
                    let i = choose|i: int|
                        0 <= i < m.path_cells.len() && (#[trigger] m.path_cells[i]).cell_x as int
                            == px as int / crate::map_data::PATH_BOX_SIZE as int && m.path_cells[
                            i
                        ].cell_y as int == py as int / crate::map_data::PATH_BOX_SIZE as int;
                    assert(false);
                }
                assert(wanted@ == w);
            }
        },
    }

    let mut kept: Vec<DynamicCollider> = Vec::new();
    let old_len = t.loaded_dynamic_colliders.len();
    let mut i: usize = 0;
    while i < t.loaded_dynamic_colliders.len()
        invariant
            map_wf(*m),
            t.loaded_dynamic_colliders@.len() == old(t).loaded_dynamic_colliders@.len(),
            i <= t.loaded_dynamic_colliders@.len(),
            forall|j: int|
                i <= j < t.loaded_dynamic_colliders@.len()
                    ==> #[trigger] t.loaded_dynamic_colliders@[j] == old(
                    t,
                ).loaded_dynamic_colliders@[j],
            forall|j: int|
                0 <= j < old(t).loaded_dynamic_colliders@.len() ==> dyn_wf(
                    #[trigger] old(t).loaded_dynamic_colliders@[j],
                    *m,
                ),
            forall|j: int| 0 <= j < kept@.len() ==> dyn_wf(#[trigger] kept@[j], *m),
            forall|j: int|
                0 <= j < kept@.len() ==> wanted@.contains(
                    (#[trigger] kept@[j]).path_idx,
                ) && exists|a: int|
                    0 <= a < old(t).loaded_dynamic_colliders@.len() && #[trigger] kept@[j] == old(
                        t,
                    ).loaded_dynamic_colliders@[a],
            forall|a: int|
                0 <= a < i && wanted@.contains(
                    (#[trigger] old(t).loaded_dynamic_colliders@[a]).path_idx,
                ) ==> exists|j: int|
                    0 <= j < kept@.len() && #[trigger] kept@[j] == old(
                        t,
                    ).loaded_dynamic_colliders@[a],
        decreases t.loaded_dynamic_colliders.len() - i,
    {
        let p = t.loaded_dynamic_colliders[i].path_idx;
        if contains_idx(&wanted, p) {
            let mut dc = DynamicCollider {
                path_idx: 0,
                current_path_element_idx: 0,
                current_position: Vec2 { x: Fx { raw: 0 }, y: Fx { raw: 0 } },
                colliders: Vec::new(),
                direction: PathDirection::Forwards,
                path_index_timer: Fx24 { raw: 0 },
            };
            std::mem::swap(&mut dc, &mut t.loaded_dynamic_colliders[i]);
            proof {
                assert(dyn_wf(old(t).loaded_dynamic_colliders@[i as int], *m));
                assert(dc == old(t).loaded_dynamic_colliders@[i as int]);
            }
            let ghost oldkept = kept@;
            kept.push(dc);
            proof {
                assert(kept@[kept@.len() - 1] == old(t).loaded_dynamic_colliders@[i as int]);
                assert forall|j: int| 0 <= j < oldkept.len() implies kept@[j] == oldkept[j] by {};
            }
        }
        i = i + 1;
    }

    let mut j: usize = 0;
    while j < wanted.len()
        invariant
            map_wf(*m),
            wanted@ == w,
            j <= wanted@.len(),
            forall|k: int| 0 <= k < kept@.len() ==> dyn_wf(#[trigger] kept@[k], *m),
            forall|k: int|
                0 <= k < kept@.len() ==> wanted@.contains((#[trigger] kept@[k]).path_idx) && ((
                exists|a: int|
                    0 <= a < old(t).loaded_dynamic_colliders@.len() && #[trigger] kept@[k] == old(
                        t,
                    ).loaded_dynamic_colliders@[a]) || initial_dc_spec(kept@[k], *m, kept@[k].path_idx)),
            forall|a: int|
                0 <= a < old(t).loaded_dynamic_colliders@.len() && wanted@.contains(
                    (#[trigger] old(t).loaded_dynamic_colliders@[a]).path_idx,
                ) ==> exists|k: int|
                    0 <= k < kept@.len() && #[trigger] kept@[k] == old(
                        t,
                    ).loaded_dynamic_colliders@[a],
            forall|jj: int|
                0 <= jj < j && ((#[trigger] wanted@[jj]) as int) < m.paths.len() ==> exists|
                    k: int,
                |
                    0 <= k < kept@.len() && (#[trigger] kept@[k]).path_idx == wanted@[jj],
        decreases wanted.len() - j,
    {
        let p = wanted[j];
        if p < m.paths.len() {
            if !loaded_has_path(&kept, p) {
                let colliders = copy_colliders(&m.paths[p].colliders);
                let dc = DynamicCollider {
                    path_idx: p,
                    current_path_element_idx: 0,
                    current_position: m.paths[p].points[0].point,
                    colliders,
                    direction: PathDirection::Forwards,
                    path_index_timer: Fx24 { raw: 0 },
                };
                proof {
                    assert(dyn_wf(dc, *m));
                    assert(initial_dc_spec(dc, *m, p));
                    assert(wanted@.contains(p)) by {
                        assert(wanted@[j as int] == p);
                    };
                }
                let ghost oldkept = kept@;
                kept.push(dc);
                proof {
                    assert(kept@[kept@.len() - 1] == dc);
                    assert forall|k: int| 0 <= k < oldkept.len() implies kept@[k] == oldkept[
                        k
                    ] by {};
                }
            }
        }
        j = j + 1;
    }
    proof {
        assert forall|p: usize|
            w.contains(p) && (p as int) < m.paths.len() implies exists|k: int|
            0 <= k < kept@.len() && (#[trigger] kept@[k]).path_idx == p by {
            let jj = choose|jj: int| 0 <= jj < wanted@.len() && wanted@[jj] == p;
        };
    }
    t.loaded_dynamic_colliders = kept;
}

/// Whether a sorted or unsorted index list holds the given index.
fn contains_idx(v: &Vec<usize>, x: usize) -> (r: bool)
    ensures
        r == v@.contains(x),
{
    let mut i: usize = 0;
    while i < v.len()
        invariant
            i <= v@.len(),
            forall|j: int| 0 <= j < i ==> (#[trigger] v@[j]) != x,
        decreases v.len() - i,
    {
        if v[i] == x {
            proof {
                assert(v@[i as int] == x);
            }
            return true;
        }
        i = i + 1;
    }
    false
}

/// Whether some loaded platform follows the given path.
fn loaded_has_path(loaded: &Vec<DynamicCollider>, p: usize) -> (r: bool)
    ensures
        r == exists|i: int|
            0 <= i < loaded@.len() && (#[trigger] loaded@[i]).path_idx == p,
{
    let mut i: usize = 0;
    while i < loaded.len()
        invariant
            i <= loaded@.len(),
            forall|j: int| 0 <= j < i ==> (#[trigger] loaded@[j]).path_idx != p,
        decreases loaded.len() - i,
    {
        if loaded[i].path_idx == p {
            return true;
        }
        i = i + 1;
    }
    false
}

/// A value-for-value copy of a collider group.
pub fn copy_colliders(v: &Vec<Collider>) -> (r: Vec<Collider>)
    ensures
        r@ == v@,
{
    let mut out: Vec<Collider> = Vec::new();
    let mut i: usize = 0;
    while i < v.len()
        invariant
            i <= v@.len(),
            out@ == v@.subrange(0, i as int),
        decreases v.len() - i,
    {
        out.push(v[i]);
        proof {
            assert(out@ =~= v@.subrange(0, i as int + 1));
        }
        i = i + 1;
    }
    proof {
        assert(out@ =~= v@);
    }
    out
}

/// One tick of the terrain component: load and unload platforms by player
/// proximity, then advance every loaded platform — exactly the two steps
/// in that order, through an intermediate state.
pub fn update_terrain(t: &mut Terrain, m: &CompiledMap, player_position: Vec2)
    requires
        map_wf(*m),
        terrain_wf(*old(t), *m),
    ensures
        terrain_wf(*final(t), *m),
        exists|mid: Terrain|
            #[trigger] load_paths_post(*m, player_position, *old(t), mid) && update_paths_post(
                *m,
                mid,
                *final(t),
            ),
{
    load_paths(t, m, player_position);
    let ghost mid = *t;
    update_paths(t, m);
    proof {
        assert(load_paths_post(*m, player_position, *old(t), mid) && update_paths_post(
            *m,
            mid,
            *t,
        ));
    }
}

/// The static candidate colliders of the compiled cell holding a world
/// position: the cell's candidate indices mapped through the collider
/// array, or empty where the cell is absent.
pub open spec fn static_candidates_spec(m: CompiledMap, cx: int, cy: int) -> Seq<Collider> {
    if exists|i: int|
        0 <= i < m.cells.len() && (#[trigger] m.cells[i]).cell_x as int == cx && m.cells[
            i
        ].cell_y as int == cy {
        let i = choose|i: int|
            0 <= i < m.cells.len() && (#[trigger] m.cells[i]).cell_x as int == cx && m.cells[
                i
            ].cell_y as int == cy;
        Seq::new(
            m.cells[i].candidates@.len(),
            |k: int| m.colliders@[m.cells[i].candidates@[k] as int],
        )
    } else {
        Seq::empty()
    }
}

/// The colliders of the first `i` loaded platforms, concatenated.
pub open spec fn dynamic_colliders_concat(loaded: Seq<DynamicCollider>, i: int) -> Seq<Collider>
    decreases i,
{
    if i <= 0 {
        Seq::empty()
    } else {
        dynamic_colliders_concat(loaded, i - 1) + loaded[i - 1].colliders@
    }
}

/// The candidate colliders a tick works against at a position: the
/// compiled cell's static candidates, in candidate order, followed by
/// every loaded platform's colliders in load order.
#[verifier::opaque]
pub open spec fn tick_candidates_spec(m: CompiledMap, t: Terrain, pos: Vec2) -> Seq<Collider> {
    static_candidates_spec(
        m,
        crate::map_data::div_floor_spec(
            crate::fixed::fx_floor(pos.x.raw as int),
            crate::map_data::BOX_SIZE as int,
        ),
        crate::map_data::div_floor_spec(
            crate::fixed::fx_floor(pos.y.raw as int),
            crate::map_data::BOX_SIZE as int,
        ),
    ) + dynamic_colliders_concat(
        t.loaded_dynamic_colliders@,
        t.loaded_dynamic_colliders@.len() as int,
    )
}

/// The colliders the player can currently touch; see
/// `tick_candidates_spec`.
pub fn nearby_colliders(m: &CompiledMap, t: &Terrain, position: Vec2) -> (r: Vec<Collider>)
    requires
        map_wf(*m),
        terrain_wf(*t, *m),
    ensures
        r@ == tick_candidates_spec(*m, *t, position),
{
    proof {
        reveal(tick_candidates_spec);
    }
    let px = position.x.floor();
    let py = position.y.floor();
    let ghost cellx = crate::map_data::div_floor_spec(px as int, crate::map_data::BOX_SIZE as int);
    let ghost celly = crate::map_data::div_floor_spec(py as int, crate::map_data::BOX_SIZE as int);
    let ghost stat = static_candidates_spec(*m, cellx, celly);
    let mut out: Vec<Collider> = Vec::new();
    match m.get_nearby(px, py) {
        Some(ci) => {
            proof {
                let i = choose|i: int|
                    0 <= i < m.cells.len() && (#[trigger] m.cells[i]).cell_x as int == cellx
                        && m.cells[i].cell_y as int == celly;
                crate::map_data::lemma_cell_key_unique(*m, i, ci as int);
            }
            let cands = &m.cells[ci].candidates;
            let mut k: usize = 0;
            while k < cands.len()
                invariant
                    map_wf(*m),
                    ci < m.cells.len(),
                    cands == &m.cells@[ci as int].candidates,
                    stat == Seq::new(
                        m.cells@[ci as int].candidates@.len(),
                        |q: int| m.colliders@[m.cells@[ci as int].candidates@[q] as int],
                    ),
                    k <= cands@.len(),
                    out@ == stat.subrange(0, k as int),
                decreases cands.len() - k,
            {
                let idx = cands[k];
                proof {
                    assert(m.cells@[ci as int].candidates[k as int] < m.colliders@.len());
                }
                let c = m.colliders[idx];
                proof {
                    assert(m.colliders@[idx as int] == c);
                    assert(stat[k as int] == c);
                }
                out.push(c);
                proof {
                    assert(out@ =~= stat.subrange(0, k as int + 1));
                }
                k = k + 1;
            }
            proof {
                assert(out@ =~= stat);
            }
        },
        None => {
            proof {
                if exists|i: int|
                    0 <= i < m.cells.len() && (#[trigger] m.cells[i]).cell_x as int == cellx
                        && m.cells[i].cell_y as int == celly {
                    let i = choose|i: int|
                        0 <= i < m.cells.len() && (#[trigger] m.cells[i]).cell_x as int == cellx
                            && m.cells[i].cell_y as int == celly;
                    assert(false);
                }
                assert(out@ =~= stat);
            }
        },
    }
    let mut i: usize = 0;
    while i < t.loaded_dynamic_colliders.len()
        invariant
            i <= t.loaded_dynamic_colliders@.len(),
            out@ == stat + dynamic_colliders_concat(t.loaded_dynamic_colliders@, i as int),
        decreases t.loaded_dynamic_colliders.len() - i,
    {
        let dcn = t.loaded_dynamic_colliders[i].colliders.len();
        let mut b: usize = 0;
        while b < dcn
            invariant
                i < t.loaded_dynamic_colliders@.len(),
                dcn == t.loaded_dynamic_colliders@[i as int].colliders@.len(),
                b <= dcn,
                out@ == stat + dynamic_colliders_concat(t.loaded_dynamic_colliders@, i as int)
                    + t.loaded_dynamic_colliders@[i as int].colliders@.subrange(0, b as int),
            decreases dcn - b,
        {
            let c = t.loaded_dynamic_colliders[i].colliders[b];
            out.push(c);
            proof {
                assert(t.loaded_dynamic_colliders@[i as int].colliders@[b as int] == c);
                assert(out@ =~= stat + dynamic_colliders_concat(
                    t.loaded_dynamic_colliders@,
                    i as int,
                ) + t.loaded_dynamic_colliders@[i as int].colliders@.subrange(0, b as int + 1));
            }
            b = b + 1;
        }
        proof {
            assert(t.loaded_dynamic_colliders@[i as int].colliders@.subrange(
                0,
                dcn as int,
            ) =~= t.loaded_dynamic_colliders@[i as int].colliders@);
            assert(out@ =~= stat + dynamic_colliders_concat(
                t.loaded_dynamic_colliders@,
                i as int + 1,
            ));
        }
        i = i + 1;
    }
    out
}

} // verus!
