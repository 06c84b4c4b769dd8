//! The player physics integrator: per tick it selects the nearest
//! gravitational collider as the local gravity source, applies a gravity
//! impulse, integrates velocity and position, resolves collisions against
//! the candidate colliders (removing inward velocity, pushing the player
//! out along the contact normal and carrying it with moving platforms),
//! classifies ground contact from the steepest contact cosine, drives the
//! playing/recovering state machine, and moves the camera.

use vstd::prelude::*;
use crate::collider::{
    collider_closest_ok, collider_closest_spec, collider_collides_ok, collider_collides_spec,
    collider_normal_ok, collider_normal_spec, collider_overshoot_ok, collider_overshoot_spec,
    Collider, ColliderTag,
};
use crate::fixed::{fx_add, fx_mul, fx_muli, fx_neg, fx_sub, Fx};
use crate::geom::Circle;
use crate::map_data::{dist_sq_raw, CompiledMap};
use crate::vec2::{fx2, v_add, v_dot, v_fastnorm, v_neg, v_scale, v_sub, Vec2};

verus! {

/// Scene-transition placeholder handed to scene updates.
pub struct Transition {}

/// Which way the player sprite faces.
#[derive(Clone, Copy, PartialEq, Eq, Structural, Debug)]
pub enum PlayerFacing {
    Left,
    Right,
}

/// The jump state machine.
#[derive(Clone, Copy, PartialEq, Eq, Structural, Debug)]
pub enum JumpState {
    HasJump,
    Jumping,
    Falling,
}

/// Whether the player stands on ground.
#[derive(Clone, Copy, PartialEq, Eq, Structural, Debug)]
pub enum GroundState {
    OnGround,
    InAir,
}

/// Whether the dash has been spent since last grounding.
#[derive(Clone, Copy, PartialEq, Eq, Structural, Debug)]
pub enum DashState {
    Available,
    Used,
}

/// The player's orientation matrix, derived from the local "up" direction.
#[derive(Clone, Copy, PartialEq, Eq, Structural, Debug)]
pub struct Orientation {
    pub a: Fx,
    pub b: Fx,
    pub c: Fx,
    pub d: Fx,
}

impl Orientation {
    /// The identity orientation.
    pub fn identity() -> (r: Orientation)
        ensures
            r.a.raw == 256 && r.b.raw == 0 && r.c.raw == 0 && r.d.raw == 256,
    {
        Orientation { a: Fx { raw: 256 }, b: Fx { raw: 0 }, c: Fx { raw: 0 }, d: Fx { raw: 256 } }
    }
}

/// The discrete audio cues the integrator emits; playback itself is an
/// external collaborator's concern.
#[derive(Clone, Copy, PartialEq, Eq, Structural, Debug)]
pub enum SfxCue {
    Dash,
    Jump,
    Land,
    Recovery,
    PowerUp,
    SpaceMusic,
}

/// The sprite the renderer should show for the player.
#[derive(Clone, Copy, PartialEq, Eq, Structural, Debug)]
pub enum PlayerSpriteKind {
    Idle,
    Walk,
    Jump,
    Fall,
}

/// The per-tick button state the input collaborator supplies.
#[derive(Clone, Copy, PartialEq, Eq, Structural, Debug)]
pub struct InputState {
    pub x_tri: i32,
    pub is_dash_pressed: bool,
    pub jump_just_pressed: bool,
    pub jump_pressed: bool,
}

/// The player entity.
#[derive(Clone, Copy, PartialEq, Eq, Structural, Debug)]
pub struct Player {
    pub angle: Orientation,
    pub surface_normal: Vec2,
    pub speed: Vec2,
    pub position: Vec2,
    pub facing: PlayerFacing,
    pub ground_state: GroundState,
    pub ground_speed: Fx,
    pub air_speed: Fx,
    pub can_dash: bool,
    pub dash_state: DashState,
    pub max_jumps: usize,
    pub jumps_remaining: usize,
    pub jump_state: JumpState,
    pub jump_speed: Fx,
    pub frame: usize,
}

/// The post-death recovery animation state: where to return, where death
/// happened, and the reverse-gravity directions at both ends, blended
/// across the animation without re-normalising.
#[derive(Clone, Copy, PartialEq, Eq, Structural, Debug)]
pub struct RecoveringState {
    pub recover_to: Vec2,
    pub starting_from: Vec2,
    pub starting_reverse_local_gravity: Vec2,
    pub destination_reverse_local_gravity: Vec2,
    pub time: u32,
}

/// The player-level state machine: normal play or the timed recovery
/// animation.
#[derive(Clone, Copy, PartialEq, Eq, Structural, Debug)]
pub enum PlayerState {
    Playing { remaining_pop_time: u32, pop_location: Vec2 },
    Recovering(RecoveringState),
}

/// The direction input applied: with no input nothing changes; otherwise
/// the acceleration (ground, air or dash speed along the controlled axis,
/// rotated into the surface or player frame) is added to the speed, the
/// facing follows the input sign, and a dash is spent exactly when it was
/// available, requested and possible.
#[verifier::opaque]
pub open spec fn dir_input_post(
    oldp: Player,
    newp: Player,
    x: int,
    is_dashing: bool,
    dashed: bool,
) -> bool {
    &&& (x == 0 ==> newp == oldp && !dashed)
    &&& (x != 0 ==> {
        let dash_amount = if oldp.can_dash && is_dashing && oldp.dash_state
            == DashState::Available {
            Fx { raw: 768 }
        } else {
            Fx { raw: 0 }
        };
        let spd = if oldp.ground_state == GroundState::OnGround {
            fx2(fx_add(oldp.ground_speed.raw as int, dash_amount.raw as int))
        } else {
            fx2(fx_add(oldp.air_speed.raw as int, dash_amount.raw as int))
        };
        let up = Vec2 { x: oldp.angle.b, y: Fx { raw: fx_neg(oldp.angle.a.raw as int) as i32 } };
        let normal = if oldp.ground_state == GroundState::OnGround && v_dot(
            oldp.surface_normal,
            up,
        ) > 179 {
            oldp.surface_normal
        } else {
            up
        };
        let acc = Vec2 {
            x: Fx { raw: 0 },
            y: fx2(fx_mul(crate::fixed::fx_of_int(x), spd.raw as int)),
        };
        let rotated = Vec2 {
            x: fx2(
                fx_sub(
                    fx_mul(normal.x.raw as int, acc.x.raw as int),
                    fx_mul(normal.y.raw as int, acc.y.raw as int),
                ),
            ),
            y: fx2(
                fx_add(
                    fx_mul(normal.y.raw as int, acc.x.raw as int),
                    fx_mul(normal.x.raw as int, acc.y.raw as int),
                ),
            ),
        };
        &&& dashed == (oldp.can_dash && is_dashing && oldp.dash_state == DashState::Available)
        &&& newp == (Player {
            speed: v_add(oldp.speed, rotated),
            facing: (if x < 0 {
                PlayerFacing::Left
            } else {
                PlayerFacing::Right
            }),
            dash_state: (if dashed {
                DashState::Used
            } else {
                oldp.dash_state
            }),
            ..oldp
        })
    })
}

/// The jump applied: only a player holding a jump jumps; the inward
/// velocity along the up normal is removed, the jump impulse added, one
/// position step integrated, a jump spent and the animation restarted.
#[verifier::opaque]
pub open spec fn jump_post(oldp: Player, newp: Player, jumped: bool) -> bool {
    &&& jumped == (oldp.jump_state == JumpState::HasJump)
    &&& (!jumped ==> newp == oldp)
    &&& (jumped ==> {
        let up = Vec2 { x: oldp.angle.b, y: Fx { raw: fx_neg(oldp.angle.a.raw as int) as i32 } };
        let d = v_dot(oldp.speed, up);
        let removed = if d < 0 {
            v_sub(oldp.speed, v_scale(up, fx2(d)))
        } else {
            oldp.speed
        };
        let jumped_speed = v_add(removed, v_scale(up, oldp.jump_speed));
        newp == (Player {
            speed: jumped_speed,
            position: v_add(oldp.position, jumped_speed),
            jump_state: JumpState::Jumping,
            jumps_remaining: (if oldp.jumps_remaining > 0 {
                (oldp.jumps_remaining - 1) as usize
            } else {
                0
            }),
            frame: 0,
            ..oldp
        })
    })
}

/// The animation frame advanced, with a held jump expiring after 32
/// frames into another jump or a fall.
#[verifier::opaque]
pub open spec fn frame_advance_post(oldp: Player, newp: Player) -> bool {
    let f2 = if oldp.frame == usize::MAX {
        0
    } else {
        oldp.frame + 1
    };
    newp == (Player {
        frame: f2 as usize,
        jump_state: (if oldp.jump_state == JumpState::Jumping && f2 > 32 {
            if oldp.jumps_remaining > 0 {
                JumpState::HasJump
            } else {
                JumpState::Falling
            }
        } else {
            oldp.jump_state
        }),
        ..oldp
    })
}

impl Player {
    /// Points the player's orientation so that its local "up" is the given
    /// direction.
    pub fn update_facing(&mut self, direction: Vec2)
        ensures
            *final(self) == (Player {
                angle: Orientation {
                    a: Fx { raw: fx_neg(direction.y.raw as int) as i32 },
                    b: direction.x,
                    c: Fx { raw: fx_neg(direction.x.raw as int) as i32 },
                    d: Fx { raw: fx_neg(direction.y.raw as int) as i32 },
                },
                ..*old(self)
            }),
    {
        let target_angle = Orientation {
            a: direction.y.neg(),
            b: direction.x,
            c: direction.x.neg(),
            d: direction.y.neg(),
        };
        self.angle = target_angle;
    }

    /// The player's local "up" normal, read back from the orientation.
    pub fn get_normal(&self) -> (r: Vec2)
        ensures
            r == (Vec2 { x: self.angle.b, y: Fx { raw: fx_neg(self.angle.a.raw as int) as i32 } }),
    {
        Vec2 { x: self.angle.b, y: self.angle.a.neg() }
    }

    /// True iff the player stands on ground.
    pub fn is_on_ground(&self) -> (r: bool)
        ensures
            r == (self.ground_state == GroundState::OnGround),
    {
        self.ground_state == GroundState::OnGround
    }

    /// The top-left corner of the player sprite.
    pub fn rendered_position(&self) -> (r: Vec2)
        ensures
            r == v_sub(self.position, Vec2 { x: Fx { raw: 2048 }, y: Fx { raw: 2048 } }),
    {
        self.position.sub(Vec2 { x: Fx { raw: 2048 }, y: Fx { raw: 2048 } })
    }

    /// Advances the animation frame and lets a held jump expire after 32
    /// frames into another jump or a fall.
    pub fn frame(&mut self)
        ensures
            frame_advance_post(*old(self), *final(self)),
    {
        proof {
            reveal(frame_advance_post);
        }
        if self.frame == usize::MAX {
            self.frame = 0;
        } else {
            self.frame = self.frame + 1;
        }
        if self.jump_state == JumpState::Jumping && self.frame > 32 {
            if self.jumps_remaining > 0 {
                self.jump_state = JumpState::HasJump;
            } else {
                self.jump_state = JumpState::Falling;
            }
        }
    }

    /// The sprite selection the renderer consumes.
    pub fn sprite(&self) -> (r: PlayerSpriteKind)
        ensures
            r == (match self.jump_state {
                JumpState::HasJump => if crate::vec2::v_magsq(self.speed) < 25 {
                    PlayerSpriteKind::Idle
                } else {
                    PlayerSpriteKind::Walk
                },
                JumpState::Jumping => PlayerSpriteKind::Jump,
                JumpState::Falling => PlayerSpriteKind::Fall,
            }),
    {
        match self.jump_state {
            JumpState::HasJump => {
                if self.speed.mag_sq().raw < 25 {
                    PlayerSpriteKind::Idle
                } else {
                    PlayerSpriteKind::Walk
                }
            },
            JumpState::Jumping => PlayerSpriteKind::Jump,
            JumpState::Falling => PlayerSpriteKind::Fall,
        }
    }

    /// Applies a collected power-up: a stronger jump, the dash ability, or
    /// one more air jump.
    pub fn apply_powerup(&mut self, powerup: crate::map_data::PowerUpKind)
        requires
            old(self).max_jumps < 1000,
            old(self).jumps_remaining < 1000,
        ensures
            *final(self) == (match powerup {
                crate::map_data::PowerUpKind::JumpBoost => Player {
                    jump_speed: Fx { raw: 896 },
                    ..*old(self)
                },
                crate::map_data::PowerUpKind::Dash => Player { can_dash: true, ..*old(self) },
                crate::map_data::PowerUpKind::DoubleJump => Player {
                    max_jumps: (old(self).max_jumps + 1) as usize,
                    jumps_remaining: (old(self).jumps_remaining + 1) as usize,
                    ..*old(self)
                },
            }),
    {
        match powerup {
            crate::map_data::PowerUpKind::JumpBoost => {
                self.jump_speed = Fx { raw: 896 };
            },
            crate::map_data::PowerUpKind::Dash => {
                self.can_dash = true;
            },
            crate::map_data::PowerUpKind::DoubleJump => {
                self.max_jumps = self.max_jumps + 1;
                self.jumps_remaining = self.jumps_remaining + 1;
            },
        }
    }

    /// Accelerates the player along the controlled axis: on the ground the
    /// surface tangent frame is used for gentle slopes, in the air the
    /// player's own frame; a dash adds a burst of speed and is spent.
    pub fn handle_direction_input(&mut self, x: i32, is_dashing: bool) -> (dashed: bool)
        requires
            -1 <= x <= 1,
        ensures
            dir_input_post(*old(self), *final(self), x as int, is_dashing, dashed),
    {
        proof {
            reveal(dir_input_post);
        }
        if x == 0 {
            return false;
        }
        let mut dashed = false;
        let dash_amount = if self.can_dash && is_dashing && self.dash_state
            == DashState::Available {
            self.dash_state = DashState::Used;
            dashed = true;
            Fx { raw: 768 }
        } else {
            Fx { raw: 0 }
        };

        let up = self.get_normal();
        let on_ground = self.ground_state == GroundState::OnGround;
        let spd = if on_ground {
            self.ground_speed.add(dash_amount)
        } else {
            self.air_speed.add(dash_amount)
        };
        let normal = if on_ground && self.surface_normal.dot(up).raw > 179 {
            self.surface_normal
        } else {
            up
        };
        let acceleration = Vec2 { x: Fx { raw: 0 }, y: Fx::from_int(x).mul(spd) };

        let rotated_acceleration = Vec2 {
            x: normal.x.mul(acceleration.x).sub(normal.y.mul(acceleration.y)),
            y: normal.y.mul(acceleration.x).add(normal.x.mul(acceleration.y)),
        };

        self.speed = self.speed.add(rotated_acceleration);

        if x < 0 {
            self.facing = PlayerFacing::Left;
        } else {
            self.facing = PlayerFacing::Right;
        }
        dashed
    }

    /// Performs a jump if one is available: removes any inward velocity
    /// along the player's up normal, adds the jump impulse along it, and
    /// immediately integrates one step of position.  Returns whether the
    /// jump happened.
    pub fn handle_jump_input(&mut self) -> (jumped: bool)
        ensures
            jump_post(*old(self), *final(self), jumped),
    {
        proof {
            reveal(jump_post);
        }
        if self.jump_state == JumpState::HasJump {
            let normal = self.get_normal();

            let dot = self.speed.dot(normal);
            if dot.raw < 0 {
                self.speed = self.speed.sub(normal.scale(dot));
            }
            self.speed = self.speed.add(normal.scale(self.jump_speed));

            self.position = self.position.add(self.speed);

            self.jump_state = JumpState::Jumping;
            if self.jumps_remaining > 0 {
                self.jumps_remaining = self.jumps_remaining - 1;
            }
            self.frame = 0;

            return true;
        }

        false
    }
}


/// A numeric fault: some geometric query left the window on which the
/// fixed-point operations are defined.  Impossible in normal play; the
/// hardware build would halt here.
#[derive(Clone, Copy, PartialEq, Eq, Structural, Debug)]
pub struct TickFault {}

/// The player's collision circle at a position.
pub open spec fn player_circle_spec(position: Vec2) -> Circle {
    Circle { position, radius: Fx { raw: 2048 } }
}

/// One collider resolved against the player: no touch leaves the player
/// alone; a lethal touch marks death; a blocking touch records the surface
/// normal, removes the inward velocity component, accumulates the largest
/// contact cosine against the player's up normal, and pushes the player
/// out by the overshoot plus the surface's own velocity.
#[verifier::opaque]
pub open spec fn resolve_step(pl: Player, ma: Option<Fx>, died: bool, c: Collider) -> (
    Player,
    Option<Fx>,
    bool,
) {
    let circle = player_circle_spec(pl.position);
    if !collider_collides_spec(c, circle) {
        (pl, ma, died)
    } else if c.tag == ColliderTag::Killision {
        (pl, ma, true)
    } else if c.tag == ColliderTag::CollisionOnly || c.tag == ColliderTag::CollisionGravitational {
        let n = collider_normal_spec(c, circle);
        let normal = Vec2 { x: fx2(n.0), y: fx2(n.1) };
        let d = v_dot(normal, pl.speed);
        let speed2 = if d < 0 {
            v_sub(pl.speed, v_scale(normal, fx2(d)))
        } else {
            pl.speed
        };
        let up = Vec2 { x: pl.angle.b, y: fx2(fx_neg(pl.angle.a.raw as int)) };
        let cos = v_dot(up, normal);
        let prev = match ma {
            Some(v) => v.raw as int,
            None => -256,
        };
        let ma2 = Some(Fx { raw: (if prev >= cos { prev } else { cos }) as i32 });
        let ov = collider_overshoot_spec(c, circle);
        let position2 = v_add(pl.position, v_add(Vec2 { x: fx2(ov.0), y: fx2(ov.1) }, c.velocity));
        (
            Player { surface_normal: normal, speed: speed2, position: position2, ..pl },
            ma2,
            died,
        )
    } else {
        (pl, ma, died)
    }
}

/// The collision fold over the first `i` candidate colliders.
#[verifier::opaque]
pub open spec fn resolve_fold(pl: Player, cs: Seq<Collider>, i: int) -> (Player, Option<Fx>, bool)
    decreases i,
{
    if i <= 0 {
        (pl, None, false)
    } else {
        let acc = resolve_fold(pl, cs, i - 1);
        resolve_step(acc.0, acc.1, acc.2, cs[i - 1])
    }
}

/// The domain of one resolution step: the collision test is defined, and
/// where a blocking collider touches, so are its normal and overshoot.
pub open spec fn resolve_step_ok(pl: Player, c: Collider) -> bool {
    let circle = player_circle_spec(pl.position);
    &&& collider_collides_ok(c, circle)
    &&& (collider_collides_spec(c, circle) && (c.tag == ColliderTag::CollisionOnly || c.tag
        == ColliderTag::CollisionGravitational) ==> collider_normal_ok(c, circle)
        && collider_overshoot_ok(c, circle))
}

/// The whole collision fold stays inside its domain over the first `i`
/// candidates.
#[verifier::opaque]
pub open spec fn resolve_fold_ok(pl: Player, cs: Seq<Collider>, i: int) -> bool
    decreases i,
{
    if i <= 0 {
        true
    } else {
        resolve_fold_ok(pl, cs, i - 1) && resolve_step_ok(resolve_fold(pl, cs, i - 1).0, cs[i - 1])
    }
}

/// A fold that left its domain at `i` candidates has left it at every
/// longer prefix.
proof fn lemma_resolve_fold_ok_mono(pl: Player, cs: Seq<Collider>, i: int, j: int)
    requires
        !resolve_fold_ok(pl, cs, i),
        i <= j,
    ensures
        !resolve_fold_ok(pl, cs, j),
    decreases j - i,
{
    reveal(resolve_fold_ok);
    if i < j {
        lemma_resolve_fold_ok_mono(pl, cs, i, j - 1);
    }
}

/// The gravitational candidate whose closest point is nearest the player,
/// with that closest point: the first such collider at the minimum
/// squared distance.
pub fn get_gravity_source(colliders: &Vec<Collider>, position: Vec2) -> (r: Result<
    (usize, Vec2),
    TickFault,
>)
    ensures
        r is Err <==> !gravity_selection_ok(colliders@, position),
        match r {
            Ok((i, cp)) => first_gravity_argmin(colliders@, position, i as int) && cp
                == closest_point_vec(colliders@[i as int], position),
            Err(_) => true,
        },
{
    proof {
        reveal(closest_dist_sq);
        reveal(closest_point_vec);
        reveal(closest_query_ok);
        reveal(crate::map_data::dist_sq_raw);
    }
    let mut best: Option<(usize, Vec2, i32)> = None;
    let mut i: usize = 0;
    while i < colliders.len()
        invariant
            i <= colliders@.len(),
            match best {
                Some((b, cp, d)) => {
                    &&& (b as int) < colliders@.len()
                    &&& colliders@[b as int].tag == ColliderTag::CollisionGravitational
                    &&& (cp.x.raw as int, cp.y.raw as int) == collider_closest_spec(
                        colliders@[b as int],
                        position.x.raw as int,
                        position.y.raw as int,
                    )
                    &&& d as int == dist_sq_raw(cp, position)
                    &&& forall|j: int|
                        0 <= j < i && (#[trigger] colliders@[j]).tag
                            == ColliderTag::CollisionGravitational ==> dist_sq_raw(
                            Vec2 {
                                x: fx2(
                                    collider_closest_spec(
                                        colliders@[j],
                                        position.x.raw as int,
                                        position.y.raw as int,
                                    ).0,
                                ),
                                y: fx2(
                                    collider_closest_spec(
                                        colliders@[j],
                                        position.x.raw as int,
                                        position.y.raw as int,
                                    ).1,
                                ),
                            },
                            position,
                        ) >= d as int
                    &&& forall|j: int|
                        0 <= j < b && (#[trigger] colliders@[j]).tag
                            == ColliderTag::CollisionGravitational ==> dist_sq_raw(
                            Vec2 {
                                x: fx2(
                                    collider_closest_spec(
                                        colliders@[j],
                                        position.x.raw as int,
                                        position.y.raw as int,
                                    ).0,
                                ),
                                y: fx2(
                                    collider_closest_spec(
                                        colliders@[j],
                                        position.x.raw as int,
                                        position.y.raw as int,
                                    ).1,
                                ),
                            },
                            position,
                        ) > d as int
                },
                None => forall|j: int|
                    0 <= j < i ==> (#[trigger] colliders@[j]).tag
                        != ColliderTag::CollisionGravitational,
            },
            forall|j: int|
                0 <= j < i && (#[trigger] colliders@[j]).tag
                    == ColliderTag::CollisionGravitational ==> collider_closest_ok(
                    colliders@[j],
                    position.x.raw as int,
                    position.y.raw as int,
                ),
        decreases colliders.len() - i,
    {
        proof {
            reveal(closest_dist_sq);
            reveal(closest_point_vec);
            reveal(closest_query_ok);
            reveal(crate::map_data::dist_sq_raw);
        }
        let c = &colliders[i];
        if c.tag.is_gravitational() {
            if !closest_ok_exec(c, position) {
                return Err(TickFault {});
            }
            let cp = c.closest_point(position);
            let d = cp.sub(position).mag_sq().raw;
            match best {
                None => {
                    best = Some((i, cp, d));
                },
                Some((_, _, bd)) => {
                    if d < bd {
                        best = Some((i, cp, d));
                    }
                },
            }
        }
        i = i + 1;
    }
    proof {
        reveal(closest_dist_sq);
        reveal(closest_point_vec);
        reveal(closest_query_ok);
        reveal(crate::map_data::dist_sq_raw);
    }
    match best {
        Some((b, cp, _)) => Ok((b, cp)),
        None => Err(TickFault {}),
    }
}

/// Whether the collider's closest-point query is defined at the point.
fn closest_ok_exec(c: &Collider, p: Vec2) -> (r: bool)
    ensures
        r == closest_query_ok(*c, p),
{
    proof {
        reveal(closest_query_ok);
    }
    match &c.kind {
        crate::collider::ColliderKind::Circle(s) => circle_normal_ok_exec(s, p),
        crate::collider::ColliderKind::Line(l) => line_closest_ok_exec(l, p),
        crate::collider::ColliderKind::Arc(a) => circle_normal_ok_exec(&a.circle, p),
    }
}

/// The collider's closest point to the point, behind the opaque atoms.
fn closest_point_of(c: &Collider, p: Vec2) -> (r: Vec2)
    requires
        closest_query_ok(*c, p),
    ensures
        r == closest_point_vec(*c, p),
{
    proof {
        reveal(closest_query_ok);
        reveal(closest_point_vec);
    }
    c.closest_point(p)
}

/// Whether the circle's normal is defined at the point.
fn circle_normal_ok_exec(s: &Circle, p: Vec2) -> (r: bool)
    ensures
        r == crate::geom::circle_normal_ok(*s, p.x.raw as int, p.y.raw as int),
{
    let d = p.sub(s.position);
    let m = d.fast_magnitude();
    if m.raw == 0 {
        return false;
    }
    if m.raw == -1 {
        let sx = crate::fixed::Fx { raw: d.x.raw }.mul_int(256);
        let sy = crate::fixed::Fx { raw: d.y.raw }.mul_int(256);
        !(sx.raw == i32::MIN || sy.raw == i32::MIN)
    } else {
        true
    }
}

/// Whether the segment's closest-point query is defined at the point.
fn line_closest_ok_exec(l: &crate::geom::Line, p: Vec2) -> (r: bool)
    ensures
        r == crate::geom::line_closest_ok(*l, p.x.raw as int, p.y.raw as int),
{
    let xx = l.end.sub(l.start);
    let pr = p.sub(l.start);
    let msq = l.length.mul(l.length);
    let disc = xx.dot(pr);
    if !(0 < disc.raw && disc.raw < msq.raw) {
        return true;
    }
    let f = msq.floor();
    if f == 0 {
        return false;
    }
    if f == -1 {
        let mx = xx.x.mul(disc);
        let my = xx.y.mul(disc);
        !(mx.raw == i32::MIN || my.raw == i32::MIN)
    } else {
        true
    }
}


/// The camera state.
#[derive(Clone, Copy, PartialEq, Eq, Structural, Debug)]
pub struct Camera {
    pub position: Vec2,
}

/// The playing game: camera, player, the last gravity source used (the
/// fallback for cells with no candidates), and the player-level state.
#[derive(Clone, Copy, PartialEq, Eq, Structural, Debug)]
pub struct GamePart {
    pub camera: Camera,
    pub player: Player,
    pub last_gravity_source: Option<Collider>,
    pub player_state: PlayerState,
}

/// Whether the tick's candidate list counts as empty for gravity
/// selection; see `is_empty_spec`.
fn tick_is_empty(m: &CompiledMap, t: &crate::paths::Terrain, pos: Vec2) -> (r: bool)
    requires
        crate::map_data::map_wf(*m),
    ensures
        r == is_empty_spec(*m, *t, pos),
{
    proof {
        reveal(is_empty_spec);
        reveal(statics_empty_spec);
        reveal(dynamic_gravity_spec);
    }
    let px = pos.x.floor();
    let py = pos.y.floor();
    let statics_empty = match m.get_nearby(px, py) {
        Some(ci) => {
            proof {
                if exists|i: int|
                    0 <= i < m.cells.len() && (#[trigger] m.cells[i]).cell_x as int == px as int
                        / crate::map_data::BOX_SIZE as int && m.cells[i].cell_y as int
                        == py as int / crate::map_data::BOX_SIZE as int && m.cells[
                        i
                    ].candidates.len() > 0 {
                    let i = choose|i: int|
                        0 <= i < m.cells.len() && (#[trigger] m.cells[i]).cell_x as int
                            == px as int / crate::map_data::BOX_SIZE as int && m.cells[
                            i
                        ].cell_y as int == py as int / crate::map_data::BOX_SIZE as int
                            && m.cells[i].candidates.len() > 0;
                    crate::map_data::lemma_cell_key_unique(*m, i, ci as int);
                }
            }
            m.cells[ci].candidates.len() == 0
        },
        None => true,
    };
    if !statics_empty {
        return false;
    }
    proof {
        assert(statics_empty_spec(*m, pos));
    }
    let mut di: usize = 0;
    while di < t.loaded_dynamic_colliders.len()
        invariant
            statics_empty_spec(*m, pos),
            di <= t.loaded_dynamic_colliders@.len(),
            forall|a: int|
                0 <= a < di ==> !((#[trigger] t.loaded_dynamic_colliders@[a]).colliders@.len()
                    > 0 && t.loaded_dynamic_colliders@[a].colliders@[0].tag
                    == ColliderTag::CollisionGravitational),
        decreases t.loaded_dynamic_colliders.len() - di,
    {
        if t.loaded_dynamic_colliders[di].colliders.len() > 0 {
            if t.loaded_dynamic_colliders[di].colliders[0].tag.is_gravitational() {
                proof {
                    reveal(is_empty_spec);
                    reveal(dynamic_gravity_spec);
                    assert(t.loaded_dynamic_colliders@[di as int].colliders@.len() > 0
                        && t.loaded_dynamic_colliders@[di as int].colliders@[0].tag
                        == ColliderTag::CollisionGravitational);
                }
                return false;
            }
        }
        di = di + 1;
    }
    proof {
        reveal(is_empty_spec);
        reveal(dynamic_gravity_spec);
    }
    true
}

/// Selects the tick's gravity closest point: the remembered source's in
/// empty space (leaving the memory alone), else the first nearest
/// gravitational candidate's, which becomes the new memory.
fn select_gravity_source(
    gp: &mut GamePart,
    colliders: &Vec<Collider>,
    is_empty: bool,
) -> (r: Result<Vec2, TickFault>)
    ensures
        final(gp).player == old(gp).player,
        final(gp).camera == old(gp).camera,
        final(gp).player_state == old(gp).player_state,
        r is Err ==> *final(gp) == *old(gp),
        r is Err <==> (if is_empty {
            !(old(gp).last_gravity_source matches Some(src) && closest_query_ok(
                src,
                old(gp).player.position,
            ))
        } else {
            !gravity_selection_ok(colliders@, old(gp).player.position)
        }),
        match r {
            Ok(cp) => if is_empty {
                &&& final(gp).last_gravity_source == old(gp).last_gravity_source
                &&& (old(gp).last_gravity_source matches Some(src) && closest_query_ok(
                    src,
                    old(gp).player.position,
                ) && cp == closest_point_vec(src, old(gp).player.position))
            } else {
                exists|i: int|
                    #[trigger] first_gravity_argmin(colliders@, old(gp).player.position, i) && cp
                        == closest_point_vec(colliders@[i], old(gp).player.position) && final(gp).last_gravity_source == Some(colliders@[i])
            },
            Err(_) => true,
        },
{
    if is_empty {
        let source = match &gp.last_gravity_source {
            Some(sc) => *sc,
            None => {
                return Err(TickFault {});
            },
        };
        if !closest_ok_exec(&source, gp.player.position) {
            return Err(TickFault {});
        }
        Ok(closest_point_of(&source, gp.player.position))
    } else {
        let (gi, gcp) = match get_gravity_source(colliders, gp.player.position) {
            Ok(v) => v,
            Err(e) => {
                return Err(e);
            },
        };
        gp.last_gravity_source = Some(colliders[gi]);
        Ok(gcp)
    }
}

/// The landing-cue threshold: the pre-tick speed had more than one unit
/// of velocity along the gravity direction.
#[verifier::opaque]
pub open spec fn landed_speed_spec(s: Vec2, gdir: Vec2) -> bool {
    v_dot(s, gdir) > 256
}

/// Applies the gravity impulse and integrates the position; returns the
/// gravity direction.  See `integrated_spec`.
fn integrate_gravity(pl: &mut Player, cp: Vec2, jump_held: bool) -> (gdir: Vec2)
    requires
        fastnorm_ok_spec(v_sub(cp, old(pl).position)),
    ensures
        *final(pl) == integrated_spec(*old(pl), cp, jump_held),
        gdir == v_fastnorm(v_sub(cp, old(pl).position)),
{
    proof {
        reveal(fastnorm_ok_spec);
        reveal(integrated_spec);
    }
    let delta = cp.sub(pl.position);
    let gravity_direction = delta.fast_normalise();
    let gravity = if pl.jump_state == JumpState::Jumping && jump_held {
        gravity_direction.div_int(128)
    } else {
        gravity_direction.div_int(10)
    };
    pl.speed = pl.speed.add(gravity);
    pl.position = pl.position.add(pl.speed);
    gravity_direction
}

/// Whether the pre-tick speed crossed the landing-cue threshold along the
/// gravity direction.
fn landed_speed_check(s: Vec2, gdir: Vec2) -> (r: bool)
    ensures
        r == landed_speed_spec(s, gdir),
{
    proof {
        reveal(landed_speed_spec);
    }
    s.dot(gdir).raw > 256
}

/// Applies the ground classification and damping of one tick to the
/// player; see `classify_spec` and `snap_speed_spec`.
fn classify_and_damp(pl: &mut Player, ma: Option<Fx>)
    ensures
        *final(pl) == snap_speed_spec(classify_spec(*old(pl), ma)),
        final(pl).position == old(pl).position,
        final(pl).angle == old(pl).angle,
{
    proof {
        reveal(classify_spec);
        reveal(snap_speed_spec);
    }
    match ma {
        Some(value) => {
            if value.raw > 204 {
                pl.jump_state = JumpState::HasJump;
                pl.dash_state = DashState::Available;
                pl.jumps_remaining = pl.max_jumps;
                pl.speed = pl.speed.scale(Fx { raw: 204 });
                pl.ground_state = GroundState::OnGround;
            } else if value.raw > 179 {
                pl.jump_state = JumpState::HasJump;
                pl.dash_state = DashState::Available;
                pl.jumps_remaining = pl.max_jumps;
                pl.speed = pl.speed.scale(Fx { raw: 230 });
                pl.ground_state = GroundState::OnGround;
            } else {
                pl.speed = pl.speed.scale(Fx { raw: 243 });
                pl.ground_state = GroundState::InAir;
            }
        },
        None => {
            pl.speed = pl.speed.scale(Fx { raw: 243 });
            pl.ground_state = GroundState::InAir;
        },
    }
    if pl.speed.mag_sq().raw < 1 {
        pl.speed = Vec2 { x: Fx { raw: 0 }, y: Fx { raw: 0 } };
    }
}

impl GamePart {
    /// A fresh game at the level's authored start: the player at the spawn
    /// marker, falling, facing right, with the starting movement tuning.
    pub fn new(m: &CompiledMap) -> (r: GamePart)
        ensures
            r.camera.position == m.camera_start,
            r.player.position == m.start_point,
            r.player.speed.x.raw == 0 && r.player.speed.y.raw == 0,
            r.player.jump_state == JumpState::Falling,
            r.player.facing == PlayerFacing::Right,
            r.player.ground_state == GroundState::InAir,
            r.player.jump_speed.raw == 563,
            r.player.ground_speed.raw == 64,
            r.player.air_speed.raw == 16,
            !r.player.can_dash,
            r.player.dash_state == DashState::Available,
            r.player.jumps_remaining == 1 && r.player.max_jumps == 1,
            r.player.frame == 0,
            r.last_gravity_source is None,
            r.player_state == (PlayerState::Playing {
                remaining_pop_time: 0u32,
                pop_location: Vec2 { x: Fx { raw: 0 }, y: Fx { raw: 0 } },
            }),
    {
        GamePart {
            camera: Camera { position: m.camera_start },
            player: Player {
                angle: Orientation::identity(),
                speed: Vec2 { x: Fx { raw: 0 }, y: Fx { raw: 0 } },
                position: m.start_point,
                jump_state: JumpState::Falling,
                facing: PlayerFacing::Right,
                ground_state: GroundState::InAir,
                surface_normal: Vec2 { x: Fx { raw: 0 }, y: Fx { raw: 0 } },
                jump_speed: Fx { raw: 563 },
                ground_speed: Fx { raw: 64 },
                air_speed: Fx { raw: 16 },
                can_dash: false,
                dash_state: DashState::Available,
                jumps_remaining: 1,
                max_jumps: 1,
                frame: 0,
            },
            last_gravity_source: None,
            player_state: PlayerState::Playing {
                remaining_pop_time: 0,
                pop_location: Vec2 { x: Fx { raw: 0 }, y: Fx { raw: 0 } },
            },
        }
    }

    /// Resolves the player against every candidate collider in order; see
    /// `resolve_fold`.  Returns the largest contact cosine (`None` means no
    /// blocking contact), and whether a lethal collider was touched.
    pub fn handle_collider_collisions(&mut self, colliders: &Vec<Collider>) -> (r: Result<
        (Option<Fx>, bool),
        TickFault,
    >)
        ensures
            r is Err <==> !resolve_fold_ok(
                old(self).player,
                colliders@,
                colliders@.len() as int,
            ),
            r is Err ==> *final(self) == *old(self),
            match r {
                Ok((ma, died)) => {
                    let f = resolve_fold(old(self).player, colliders@, colliders@.len() as int);
                    &&& final(self).player == f.0
                    &&& ma == f.1
                    &&& died == f.2
                    &&& final(self).camera == old(self).camera
                    &&& final(self).last_gravity_source == old(self).last_gravity_source
                    &&& final(self).player_state == old(self).player_state
                },
                Err(_) => true,
            },
    {
        proof {
            reveal(resolve_fold);
            reveal(resolve_fold_ok);
        }
        let mut pl = self.player;
        let mut ma: Option<Fx> = None;
        let mut died: bool = false;
        let mut i: usize = 0;
        while i < colliders.len()
            invariant
                i <= colliders@.len(),
                resolve_fold(old(self).player, colliders@, i as int) == (pl, ma, died),
                resolve_fold_ok(old(self).player, colliders@, i as int),
                *self == *old(self),
            decreases colliders.len() - i,
        {
            proof {
                reveal(resolve_fold);
                reveal(resolve_fold_ok);
                reveal(resolve_step);
            }
            let c = &colliders[i];
            let player_circle = Circle { position: pl.position, radius: Fx { raw: 2048 } };
            if !collides_ok_exec(c, &player_circle) {
                proof {
                    lemma_resolve_fold_ok_mono(
                        old(self).player,
                        colliders@,
                        i as int + 1,
                        colliders@.len() as int,
                    );
                }
                return Err(TickFault {});
            }
            if c.collides_circle(&player_circle) {
                if c.tag.is_kills_player() {
                    died = true;
                } else if c.tag.is_collision() {
                    if !normal_ok_exec(c, &player_circle) || !overshoot_ok_exec(
                        c,
                        &player_circle,
                    ) {
                        proof {
                            lemma_resolve_fold_ok_mono(
                                old(self).player,
                                colliders@,
                                i as int + 1,
                                colliders@.len() as int,
                            );
                        }
                        return Err(TickFault {});
                    }
                    let normal = c.normal_circle(&player_circle);

                    pl.surface_normal = normal;

                    let dot = normal.dot(pl.speed);
                    if dot.raw < 0 {
                        pl.speed = pl.speed.sub(normal.scale(dot));
                    }

                    let up = pl.get_normal();
                    let cosine_of_floor_angle = up.dot(normal);
                    let prev: i32 = match ma {
                        Some(v) => v.raw,
                        None => -256,
                    };
                    ma = Some(
                        Fx {
                            raw: if prev >= cosine_of_floor_angle.raw {
                                prev
                            } else {
                                cosine_of_floor_angle.raw
                            },
                        },
                    );

                    let overshoot = c.overshoot(&player_circle);

                    pl.position = pl.position.add(overshoot.add(c.velocity));
                }
            }
            i = i + 1;
        }
        self.player = pl;
        Ok((ma, died))
    }
}

/// Whether the collider's collision test is defined against the circle.
fn collides_ok_exec(c: &Collider, circle: &Circle) -> (r: bool)
    ensures
        r == collider_collides_ok(*c, *circle),
{
    match &c.kind {
        crate::collider::ColliderKind::Circle(_) => true,
        crate::collider::ColliderKind::Line(l) => line_closest_ok_exec(l, circle.position),
        crate::collider::ColliderKind::Arc(a) => circle_normal_ok_exec(
            &a.circle,
            circle.position,
        ),
    }
}

/// Whether the collider's surface normal is defined at the circle.
fn normal_ok_exec(c: &Collider, circle: &Circle) -> (r: bool)
    ensures
        r == collider_normal_ok(*c, *circle),
{
    match &c.kind {
        crate::collider::ColliderKind::Circle(s) => circle_normal_ok_exec(s, circle.position),
        crate::collider::ColliderKind::Line(_) => true,
        crate::collider::ColliderKind::Arc(a) => circle_normal_ok_exec(
            &a.circle,
            circle.position,
        ),
    }
}

/// Whether the collider's overshoot is defined against the circle.
fn overshoot_ok_exec(c: &Collider, circle: &Circle) -> (r: bool)
    ensures
        r == collider_overshoot_ok(*c, *circle),
{
    match &c.kind {
        crate::collider::ColliderKind::Circle(s) => {
            let d = circle.position.sub(s.position);
            d.mag_sq().raw >= 0 && circle_normal_ok_exec(s, circle.position)
        },
        crate::collider::ColliderKind::Line(l) => {
            let x1 = l.start.x;
            let x2 = l.end.x;
            let x0 = circle.position.x;
            let y1 = l.start.y;
            let y2 = l.end.y;
            let y0 = circle.position.y;
            let numerator = y2.sub(y1).mul(x0).sub(x2.sub(x1).mul(y0)).add(
                x2.mul(y1).sub(y2.mul(x1)),
            );
            if l.length.raw == 0 {
                false
            } else if l.length.raw == -1 {
                numerator.abs().mul_int(256).raw != i32::MIN
            } else {
                true
            }
        },
        crate::collider::ColliderKind::Arc(a) => {
            let d = circle.position.sub(a.circle.position);
            d.mag_sq().raw >= 0 && circle_normal_ok_exec(&a.circle, circle.position)
        },
    }
}


/// Squared distance of a collider's closest point from a query point.
#[verifier::opaque]
pub open spec fn closest_dist_sq(c: Collider, p: Vec2) -> int {
    let cp = collider_closest_spec(c, p.x.raw as int, p.y.raw as int);
    dist_sq_raw(Vec2 { x: fx2(cp.0), y: fx2(cp.1) }, p)
}

/// `i` is the first gravitational candidate at minimum closest-point
/// distance from `p`.
pub open spec fn first_gravity_argmin(cs: Seq<Collider>, p: Vec2, i: int) -> bool {
    &&& 0 <= i < cs.len()
    &&& cs[i].tag == ColliderTag::CollisionGravitational
    &&& forall|j: int|
        0 <= j < cs.len() && (#[trigger] cs[j]).tag == ColliderTag::CollisionGravitational
            ==> closest_dist_sq(cs[j], p) >= closest_dist_sq(cs[i], p)
    &&& forall|j: int|
        0 <= j < i && (#[trigger] cs[j]).tag == ColliderTag::CollisionGravitational
            ==> closest_dist_sq(cs[j], p) > closest_dist_sq(cs[i], p)
}

/// At most one candidate is the first gravity argmin.
pub proof fn lemma_first_gravity_argmin_unique(cs: Seq<Collider>, p: Vec2, i: int, j: int)
    requires
        first_gravity_argmin(cs, p, i),
        first_gravity_argmin(cs, p, j),
    ensures
        i == j,
{
    if i < j {
        assert(closest_dist_sq(cs[i], p) > closest_dist_sq(cs[j], p));
        assert(closest_dist_sq(cs[i], p) >= closest_dist_sq(cs[j], p));
        assert(closest_dist_sq(cs[j], p) >= closest_dist_sq(cs[i], p));
    }
    if j < i {
        assert(closest_dist_sq(cs[j], p) > closest_dist_sq(cs[i], p));
        assert(closest_dist_sq(cs[i], p) >= closest_dist_sq(cs[j], p));
    }
}

/// At most one recovery point is the first argmin.
pub proof fn lemma_first_recovery_argmin_unique(m: CompiledMap, p: Vec2, i: int, j: int)
    requires
        first_recovery_argmin(m, p, i),
        first_recovery_argmin(m, p, j),
    ensures
        i == j,
{
    if i < j {
        assert(dist_sq_raw(m.recovery_points[i], p) > dist_sq_raw(m.recovery_points[j], p));
        assert(dist_sq_raw(m.recovery_points[j], p) >= dist_sq_raw(m.recovery_points[i], p));
    }
    if j < i {
        assert(dist_sq_raw(m.recovery_points[j], p) > dist_sq_raw(m.recovery_points[i], p));
        assert(dist_sq_raw(m.recovery_points[i], p) >= dist_sq_raw(m.recovery_points[j], p));
    }
}

/// The collider's closest-point query is defined at the point.
#[verifier::opaque]
pub open spec fn closest_query_ok(c: Collider, p: Vec2) -> bool {
    collider_closest_ok(c, p.x.raw as int, p.y.raw as int)
}

/// All gravitational candidates admit the closest-point query at `p`, and
/// there is at least one.
pub open spec fn gravity_selection_ok(cs: Seq<Collider>, p: Vec2) -> bool {
    &&& exists|j: int|
        0 <= j < cs.len() && (#[trigger] cs[j]).tag == ColliderTag::CollisionGravitational
    &&& forall|j: int|
        0 <= j < cs.len() && (#[trigger] cs[j]).tag == ColliderTag::CollisionGravitational
            ==> closest_query_ok(cs[j], p)
}

/// The closest point of a collider, as a vector.
#[verifier::opaque]
pub open spec fn closest_point_vec(c: Collider, p: Vec2) -> Vec2 {
    let cp = collider_closest_spec(c, p.x.raw as int, p.y.raw as int);
    Vec2 { x: fx2(cp.0), y: fx2(cp.1) }
}

/// The approximate normalisation of `d` is defined.
#[verifier::opaque]
pub open spec fn fastnorm_ok_spec(d: Vec2) -> bool {
    &&& crate::vec2::fast_mag_raw(d.x.raw as int, d.y.raw as int) != 0
    &&& !(crate::fixed::crop32(d.x.raw as int * 256) == i32::MIN as int
        && crate::vec2::fast_mag_raw(d.x.raw as int, d.y.raw as int) == -1)
    &&& !(crate::fixed::crop32(d.y.raw as int * 256) == i32::MIN as int
        && crate::vec2::fast_mag_raw(d.x.raw as int, d.y.raw as int) == -1)
}

/// The compiled cell at a position has no candidates (or no cell exists).
#[verifier::opaque]
pub open spec fn statics_empty_spec(m: CompiledMap, pos: Vec2) -> bool {
    let cx = crate::map_data::div_floor_spec(
        crate::fixed::fx_floor(pos.x.raw as int),
        crate::map_data::BOX_SIZE as int,
    );
    let cy = crate::map_data::div_floor_spec(
        crate::fixed::fx_floor(pos.y.raw as int),
        crate::map_data::BOX_SIZE as int,
    );
    !(exists|i: int|
        0 <= i < m.cells.len() && (#[trigger] m.cells[i]).cell_x as int == cx && m.cells[
            i
        ].cell_y as int == cy && m.cells[i].candidates.len() > 0)
}

/// Some loaded platform's first collider is gravitational.
#[verifier::opaque]
pub open spec fn dynamic_gravity_spec(t: crate::paths::Terrain) -> bool {
    exists|i: int|
        0 <= i < t.loaded_dynamic_colliders@.len() && (
        #[trigger] t.loaded_dynamic_colliders@[i]).colliders@.len() > 0
            && t.loaded_dynamic_colliders@[i].colliders@[0].tag
            == ColliderTag::CollisionGravitational
}

/// The candidate list counts as empty for gravity selection: no static
/// candidates, and no loaded platform leading with a gravitational
/// collider — the case that falls back to the remembered source.
#[verifier::opaque]
pub open spec fn is_empty_spec(m: CompiledMap, t: crate::paths::Terrain, pos: Vec2) -> bool {
    statics_empty_spec(m, pos) && !dynamic_gravity_spec(t)
}

/// How the tick's gravity closest point and remembered source are chosen:
/// in empty space the remembered source's closest point with the memory
/// unchanged, otherwise the closest point of the first nearest
/// gravitational candidate, which becomes the new memory.
pub open spec fn gravity_choice(
    gp: GamePart,
    m: CompiledMap,
    t: crate::paths::Terrain,
    cs: Seq<Collider>,
    cp: Vec2,
    last2: Option<Collider>,
) -> bool {
    if is_empty_spec(m, t, gp.player.position) {
        &&& gp.last_gravity_source is Some
        &&& (gp.last_gravity_source matches Some(src) ==> cp == closest_point_vec(
            src,
            gp.player.position,
        ))
        &&& last2 == gp.last_gravity_source
    } else {
        exists|i: int|
            #[trigger] first_gravity_argmin(cs, gp.player.position, i) && cp == closest_point_vec(
                cs[i],
                gp.player.position,
            ) && last2 == Some(cs[i])
    }
}

/// The remainder of a tick's domain once the gravity closest point is
/// chosen: the gravity direction normalises, the collision fold stays in
/// its domain, and a lethal tick's death transition is defined at the
/// resolved position with the updated gravity memory.
pub open spec fn physics_rest_ready(
    gp: GamePart,
    m: CompiledMap,
    t: crate::paths::Terrain,
    cs: Seq<Collider>,
    cp: Vec2,
    last2: Option<Collider>,
    jump_held: bool,
) -> bool {
    &&& fastnorm_ok_spec(v_sub(cp, gp.player.position))
    &&& resolve_fold_ok(integrated_spec(gp.player, cp, jump_held), cs, cs.len() as int)
    &&& (resolve_fold(integrated_spec(gp.player, cp, jump_held), cs, cs.len() as int).2
        ==> death_ready(
        m,
        t,
        last2,
        resolve_fold(integrated_spec(gp.player, cp, jump_held), cs, cs.len() as int).0.position,
    ))
}

/// The whole playing tick's domain: with the pop timer stepped and the
/// direction input applied to the player, the physics frame is defined.
/// A recovering tick is always defined.
#[verifier::opaque]
pub open spec fn playing_ready(
    g: GamePart,
    m: CompiledMap,
    t: crate::paths::Terrain,
    input: InputState,
) -> bool {
    match g.player_state {
        PlayerState::Playing { remaining_pop_time, pop_location } => {
            let st2 = PlayerState::Playing {
                remaining_pop_time: (if remaining_pop_time > 0 {
                    (remaining_pop_time - 1) as u32
                } else {
                    0u32
                }),
                pop_location,
            };
            forall|p1: Player, dashed: bool|
                #[trigger] dir_input_post(
                    g.player,
                    p1,
                    input.x_tri as int,
                    input.is_dash_pressed,
                    dashed,
                ) ==> physics_ready(
                    GamePart { player: p1, player_state: st2, ..g },
                    m,
                    t,
                    input.jump_pressed,
                )
        },
        PlayerState::Recovering(_) => true,
    }
}

/// The whole tick's domain: the gravity selection is defined (with the
/// remembered-source fallback in empty space) and the rest of the tick is
/// defined for the chosen closest point.
pub open spec fn physics_ready(
    gp: GamePart,
    m: CompiledMap,
    t: crate::paths::Terrain,
    jump_held: bool,
) -> bool {
    let pos = gp.player.position;
    let cs = crate::paths::tick_candidates_spec(m, t, pos);
    if is_empty_spec(m, t, pos) {
        &&& gp.last_gravity_source is Some
        &&& (gp.last_gravity_source matches Some(src) ==> closest_query_ok(src, pos)
            && physics_rest_ready(
            gp,
            m,
            t,
            cs,
            closest_point_vec(src, pos),
            gp.last_gravity_source,
            jump_held,
        ))
    } else {
        &&& gravity_selection_ok(cs, pos)
        &&& forall|i: int|
            #[trigger] first_gravity_argmin(cs, pos, i) ==> physics_rest_ready(
                gp,
                m,
                t,
                cs,
                closest_point_vec(cs[i], pos),
                Some(cs[i]),
                jump_held,
            )
    }
}

/// The successful tick: the camera is untouched; for the chosen gravity
/// closest point the player follows `physics_post_spec`; the death flag
/// is the collision fold's; the landing cue fires exactly on a new ground
/// contact with enough downward speed; and a lethal tick enters recovery
/// while a clean tick leaves the state machine alone.
#[verifier::opaque]
pub open spec fn physics_tick_post(
    oldg: GamePart,
    newg: GamePart,
    m: CompiledMap,
    t: crate::paths::Terrain,
    jump_held: bool,
    landed: bool,
    died: bool,
) -> bool {
    let cs = crate::paths::tick_candidates_spec(m, t, oldg.player.position);
    &&& newg.camera == oldg.camera
    &&& exists|cp: Vec2|
        {
            &&& #[trigger] gravity_choice(oldg, m, t, cs, cp, newg.last_gravity_source)
            &&& physics_post_spec(oldg.player, newg.player, cs, cp, jump_held)
            &&& died == resolve_fold(
                integrated_spec(oldg.player, cp, jump_held),
                cs,
                cs.len() as int,
            ).2
            &&& landed == (oldg.player.ground_state != GroundState::OnGround
                && newg.player.ground_state == GroundState::OnGround && landed_speed_spec(
                oldg.player.speed,
                v_fastnorm(v_sub(cp, oldg.player.position)),
            ))
        }
    &&& (!died ==> newg.player_state == oldg.player_state)
    &&& (died ==> (newg.player_state matches PlayerState::Recovering(rs) && rs.time == 0
        && rs.starting_from == newg.player.position && exists|ri: int|
        #[trigger] first_recovery_argmin(m, newg.player.position, ri) && rs.recover_to
            == m.recovery_points[ri]))
}

/// The player state after the gravity impulse and position integration,
/// before collision resolution.
#[verifier::opaque]
pub open spec fn integrated_spec(pre: Player, cp: Vec2, jump_held: bool) -> Player {
    let gdir = v_fastnorm(v_sub(cp, pre.position));
    let gravity = if pre.jump_state == JumpState::Jumping && jump_held {
        crate::vec2::v_divi(gdir, 128)
    } else {
        crate::vec2::v_divi(gdir, 10)
    };
    let s1 = v_add(pre.speed, gravity);
    Player { speed: s1, position: v_add(pre.position, s1), ..pre }
}

/// The death transition's domain: a recovery point exists, the remembered
/// gravity source admits its queries at the death position, and at the
/// chosen recovery point the gravity selection and its normalisation are
/// defined.
pub open spec fn death_ready(
    m: CompiledMap,
    t: crate::paths::Terrain,
    last: Option<Collider>,
    pos: Vec2,
) -> bool {
    &&& m.recovery_points.len() >= 1
    &&& last is Some
    &&& (last matches Some(src) ==> {
        &&& closest_query_ok(src, pos)
        &&& fastnorm_ok_spec(v_sub(pos, closest_point_vec(src, pos)))
        &&& forall|ri: int|
            #[trigger] first_recovery_argmin(m, pos, ri) ==> {
                let rp = m.recovery_points[ri];
                let cs2 = crate::paths::tick_candidates_spec(m, t, rp);
                &&& gravity_selection_ok(cs2, rp)
                &&& forall|gi: int|
                    #[trigger] first_gravity_argmin(cs2, rp, gi) ==> fastnorm_ok_spec(
                        v_sub(rp, closest_point_vec(cs2[gi], rp)),
                    )
            }
    })
}

/// The successful death transition: the player, camera and gravity memory
/// are untouched, and the state machine enters recovery at time zero,
/// returning to the first nearest recovery point, with the
/// reverse-gravity directions captured at both ends.
#[verifier::opaque]
pub open spec fn death_post(
    oldg: GamePart,
    newg: GamePart,
    m: CompiledMap,
    t: crate::paths::Terrain,
) -> bool {
    &&& newg.player == oldg.player
    &&& newg.camera == oldg.camera
    &&& newg.last_gravity_source == oldg.last_gravity_source
    &&& (newg.player_state matches PlayerState::Recovering(rs) && {
        let pos = oldg.player.position;
        &&& rs.time == 0
        &&& rs.starting_from == pos
        &&& exists|ri: int|
            #[trigger] first_recovery_argmin(m, pos, ri) && rs.recover_to == m.recovery_points[ri]
        &&& (oldg.last_gravity_source matches Some(src) ==> rs.starting_reverse_local_gravity
            == v_fastnorm(v_sub(pos, closest_point_vec(src, pos))))
    })
}

/// `ri` is the first recovery point at minimum squared distance from `p`.
pub open spec fn first_recovery_argmin(m: CompiledMap, p: Vec2, ri: int) -> bool {
    &&& 0 <= ri < m.recovery_points.len()
    &&& forall|j: int|
        0 <= j < m.recovery_points.len() ==> dist_sq_raw(#[trigger] m.recovery_points[j], p)
            >= dist_sq_raw(m.recovery_points[ri], p)
    &&& forall|j: int|
        0 <= j < ri ==> dist_sq_raw(#[trigger] m.recovery_points[j], p) > dist_sq_raw(
            m.recovery_points[ri],
            p,
        )
}

/// The ground classification and damping of one tick: a contact cosine
/// above 0.8 is firm ground (strong friction, jump and dash refreshed),
/// above 0.7 a steep slope (weaker friction, jump still refreshed),
/// anything else leaves the player airborne with light drag.
#[verifier::opaque]
pub open spec fn classify_spec(pl: Player, ma: Option<Fx>) -> Player {
    match ma {
        Some(value) => {
            if value.raw > 204 {
                Player {
                    jump_state: JumpState::HasJump,
                    dash_state: DashState::Available,
                    jumps_remaining: pl.max_jumps,
                    speed: v_scale(pl.speed, Fx { raw: 204 }),
                    ground_state: GroundState::OnGround,
                    ..pl
                }
            } else if value.raw > 179 {
                Player {
                    jump_state: JumpState::HasJump,
                    dash_state: DashState::Available,
                    jumps_remaining: pl.max_jumps,
                    speed: v_scale(pl.speed, Fx { raw: 230 }),
                    ground_state: GroundState::OnGround,
                    ..pl
                }
            } else {
                Player {
                    speed: v_scale(pl.speed, Fx { raw: 243 }),
                    ground_state: GroundState::InAir,
                    ..pl
                }
            }
        },
        None => Player {
            speed: v_scale(pl.speed, Fx { raw: 243 }),
            ground_state: GroundState::InAir,
            ..pl
        },
    }
}

/// Snapping of a nearly-stopped player to a full stop.
#[verifier::opaque]
pub open spec fn snap_speed_spec(pl: Player) -> Player {
    if crate::vec2::v_magsq(pl.speed) < 1 {
        Player { speed: Vec2 { x: Fx { raw: 0 }, y: Fx { raw: 0 } }, ..pl }
    } else {
        pl
    }
}

/// The whole physics tick, given the gravity closest point `cp` that was
/// selected: the gravity impulse (reduced while a held jump is rising),
/// the velocity and position integration, the collision fold, the ground
/// classification, the stop snap and the reorientation to the new "up".
#[verifier::opaque]
pub open spec fn physics_post_spec(
    pre: Player,
    post: Player,
    cs: Seq<Collider>,
    cp: Vec2,
    jump_held: bool,
) -> bool {
    let gdir = v_fastnorm(v_sub(cp, pre.position));
    let pre2 = integrated_spec(pre, cp, jump_held);
    let f = resolve_fold(pre2, cs, cs.len() as int);
    let snapped = snap_speed_spec(classify_spec(f.0, f.1));
    post == (Player {
        angle: Orientation {
            a: Fx { raw: fx_neg(fx_neg(gdir.y.raw as int)) as i32 },
            b: fx2(fx_neg(gdir.x.raw as int)),
            c: Fx { raw: fx_neg(fx_neg(gdir.x.raw as int)) as i32 },
            d: Fx { raw: fx_neg(fx_neg(gdir.y.raw as int)) as i32 },
        },
        ..snapped
    })
}

impl GamePart {
    /// Enters the recovery sequence after a lethal touch: the nearest
    /// authored recovery point becomes the destination, and the
    /// reverse-gravity directions at the death spot and the destination
    /// are captured for the recovery animation's blend.
    #[verifier::rlimit(100)]
    #[verifier::spinoff_prover]
    pub fn handle_player_death(
        &mut self,
        m: &CompiledMap,
        t: &crate::paths::Terrain,
    ) -> (r: Result<(), TickFault>)
        requires
            crate::map_data::map_wf(*m),
            crate::paths::terrain_wf(*t, *m),
        ensures
            r is Err <==> !death_ready(
                *m,
                *t,
                old(self).last_gravity_source,
                old(self).player.position,
            ),
            r is Err ==> *final(self) == *old(self),
            r is Ok ==> death_post(*old(self), *final(self), *m, *t),
    {
        if m.recovery_points.len() == 0 {
            return Err(TickFault {});
        }
        let point_to_recover_to = m.get_recovery_point(self.player.position);
        let ghost pos0 = self.player.position;
        let ghost ri0 = choose|ri: int|
            {
                &&& 0 <= ri < m.recovery_points.len()
                &&& point_to_recover_to == m.recovery_points[ri]
                &&& forall|j: int|
                    0 <= j < m.recovery_points.len() ==> dist_sq_raw(
                        #[trigger] m.recovery_points[j],
                        pos0,
                    ) >= dist_sq_raw(m.recovery_points[ri], pos0)
                &&& forall|j: int|
                    0 <= j < ri ==> dist_sq_raw(#[trigger] m.recovery_points[j], pos0)
                        > dist_sq_raw(m.recovery_points[ri], pos0)
            };
        proof {
            assert(first_recovery_argmin(*m, pos0, ri0));
        }
        let source = match &self.last_gravity_source {
            Some(s) => *s,
            None => {
                return Err(TickFault {});
            },
        };
        if !closest_ok_exec(&source, self.player.position) {
            return Err(TickFault {});
        }
        let scp = closest_point_of(&source, self.player.position);
        let sdelta = self.player.position.sub(scp);
        if !fastnorm_ok_exec(sdelta) {
            return Err(TickFault {});
        }
        proof {
            reveal(fastnorm_ok_spec);
        }
        let starting_reverse_local_gravity = sdelta.fast_normalise();

        let colliders_there = crate::paths::nearby_colliders(m, t, point_to_recover_to);
        let (gsrc, gcp) = match get_gravity_source(&colliders_there, point_to_recover_to) {
            Ok(v) => v,
            Err(e) => {
                proof {
                    if death_ready(*m, *t, old(self).last_gravity_source, pos0) {
                        assert(gravity_selection_ok(colliders_there@, point_to_recover_to));
                    }
                }
                return Err(e);
            },
        };
        let ddelta = point_to_recover_to.sub(gcp);
        if !fastnorm_ok_exec(ddelta) {
            proof {
                if death_ready(*m, *t, old(self).last_gravity_source, pos0) {
                    assert(fastnorm_ok_spec(
                        v_sub(
                            point_to_recover_to,
                            closest_point_vec(colliders_there@[gsrc as int], point_to_recover_to),
                        ),
                    ));
                }
            }
            return Err(TickFault {});
        }
        proof {
            reveal(fastnorm_ok_spec);
        }
        let destination_reverse_local_gravity = ddelta.fast_normalise();

        self.player_state = PlayerState::Recovering(
            RecoveringState {
                recover_to: point_to_recover_to,
                starting_from: self.player.position,
                starting_reverse_local_gravity,
                destination_reverse_local_gravity,
                time: 0,
            },
        );
        proof {
            assert(first_recovery_argmin(*m, pos0, ri0));
            reveal(death_post);
            assert(death_post(*old(self), *self, *m, *t));
            assert forall|ri: int|
                #[trigger] first_recovery_argmin(*m, pos0, ri) implies {
                let rp = m.recovery_points[ri];
                let cs2 = crate::paths::tick_candidates_spec(*m, *t, rp);
                &&& gravity_selection_ok(cs2, rp)
                &&& forall|gi: int|
                    #[trigger] first_gravity_argmin(cs2, rp, gi) ==> fastnorm_ok_spec(
                        v_sub(rp, closest_point_vec(cs2[gi], rp)),
                    )
            } by {
                lemma_first_recovery_argmin_unique(*m, pos0, ri, ri0);
                let rp = m.recovery_points[ri];
                let cs2 = crate::paths::tick_candidates_spec(*m, *t, rp);
                assert(rp == point_to_recover_to);
                assert(cs2 == colliders_there@);
                assert forall|gi: int|
                    #[trigger] first_gravity_argmin(cs2, rp, gi) implies fastnorm_ok_spec(
                    v_sub(rp, closest_point_vec(cs2[gi], rp)),
                ) by {
                    lemma_first_gravity_argmin_unique(cs2, rp, gi, gsrc as int);
                }
            }
            assert(death_ready(*m, *t, old(self).last_gravity_source, pos0));
        }
        Ok(())
    }

    /// One physics tick; see `physics_post_spec`, `gravity_choice` and
    /// `physics_frame_ok`.  Returns whether the landing cue should play,
    /// and whether the player died this tick.
    #[verifier::rlimit(100)]
    #[verifier::spinoff_prover]
    pub fn physics_frame(
        &mut self,
        m: &CompiledMap,
        t: &crate::paths::Terrain,
        jump_held: bool,
    ) -> (r: Result<(bool, bool), TickFault>)
        requires
            crate::map_data::map_wf(*m),
            crate::paths::terrain_wf(*t, *m),
        ensures
            r is Err <==> !physics_ready(*old(self), *m, *t, jump_held),
            r is Err ==> *final(self) == *old(self),
            r matches Ok((landed, died)) ==> physics_tick_post(
                *old(self),
                *final(self),
                *m,
                *t,
                jump_held,
                landed,
                died,
            ),
    {
        let mut g = *self;
        let colliders = crate::paths::nearby_colliders(m, t, g.player.position);
        let is_empty = tick_is_empty(m, t, g.player.position);
        let ghost pos = old(self).player.position;
        let ghost cs = colliders@;

        let gravity_source: Vec2 = match select_gravity_source(&mut g, &colliders, is_empty) {
            Ok(cp) => cp,
            Err(e) => {
                return Err(e);
            },
        };
        let ghost i0: int = if !is_empty {
            choose|i: int|
                #[trigger] first_gravity_argmin(cs, pos, i) && gravity_source
                    == closest_point_vec(cs[i], pos) && g.last_gravity_source == Some(cs[i])
        } else {
            0
        };

        let delta = gravity_source.sub(g.player.position);
        if !fastnorm_ok_exec(delta) {
            proof {
                if physics_ready(*old(self), *m, *t, jump_held) {
                    if !is_empty {
                        assert(physics_rest_ready(
                            *old(self),
                            *m,
                            *t,
                            cs,
                            closest_point_vec(cs[i0], pos),
                            Some(cs[i0]),
                            jump_held,
                        ));
                    }
                    assert(false);
                }
            }
            return Err(TickFault {});
        }
        let old_speed = g.player.speed;
        let was_on_ground = g.player.is_on_ground();
        let gravity_direction = integrate_gravity(&mut g.player, gravity_source, jump_held);

        let (ma, died) = match g.handle_collider_collisions(&colliders) {
            Ok(v) => v,
            Err(e) => {
                proof {
                    if physics_ready(*old(self), *m, *t, jump_held) {
                        if !is_empty {
                            assert(physics_rest_ready(
                                *old(self),
                                *m,
                                *t,
                                cs,
                                closest_point_vec(cs[i0], pos),
                                Some(cs[i0]),
                                jump_held,
                            ));
                        }
                        assert(false);
                    }
                }
                return Err(e);
            },
        };

        classify_and_damp(&mut g.player, ma);

        let is_on_ground = g.player.is_on_ground();
        let landed = !was_on_ground && is_on_ground && landed_speed_check(
            old_speed,
            gravity_direction,
        );

        g.player.update_facing(gravity_direction.neg());

        let ghost last2 = g.last_gravity_source;
        let ghost fold = resolve_fold(
            integrated_spec(old(self).player, gravity_source, jump_held),
            cs,
            cs.len() as int,
        );
        if died {
            let ghost before_death = g;
            match g.handle_player_death(m, t) {
                Ok(()) => {},
                Err(e) => {
                    proof {
                        assert(before_death.player.position == fold.0.position);
                        if physics_ready(*old(self), *m, *t, jump_held) {
                            if !is_empty {
                                assert(physics_rest_ready(
                                    *old(self),
                                    *m,
                                    *t,
                                    cs,
                                    closest_point_vec(cs[i0], pos),
                                    Some(cs[i0]),
                                    jump_held,
                                ));
                            }
                            assert(death_ready(*m, *t, last2, fold.0.position));
                            assert(false);
                        }
                    }
                    return Err(e);
                },
            }
            proof {
                reveal(death_post);
                assert(death_post(before_death, g, *m, *t));
            }
        }

        proof {
            let cp = gravity_source;
            assert(physics_post_spec(old(self).player, g.player, cs, cp, jump_held)) by {
                reveal(physics_post_spec);
            };
            assert(gravity_choice(*old(self), *m, *t, cs, cp, last2));
            reveal(physics_tick_post);
            assert(physics_tick_post(*old(self), g, *m, *t, jump_held, landed, died));
            if is_empty {
                assert(physics_rest_ready(
                    *old(self),
                    *m,
                    *t,
                    cs,
                    gravity_source,
                    old(self).last_gravity_source,
                    jump_held,
                ));
            } else {
                assert forall|i: int|
                    #[trigger] first_gravity_argmin(cs, pos, i) implies physics_rest_ready(
                    *old(self),
                    *m,
                    *t,
                    cs,
                    closest_point_vec(cs[i], pos),
                    Some(cs[i]),
                    jump_held,
                ) by {
                    lemma_first_gravity_argmin_unique(cs, pos, i, i0);
                }
            }
            assert(physics_ready(*old(self), *m, *t, jump_held));
        }

        *self = g;
        Ok((landed, died))
    }
}

/// Whether the approximate normalisation is defined for a vector.
fn fastnorm_ok_exec(d: Vec2) -> (r: bool)
    ensures
        r == fastnorm_ok_spec(d),
{
    proof {
        reveal(fastnorm_ok_spec);
    }
    let m = d.fast_magnitude();
    if m.raw == 0 {
        return false;
    }
    if m.raw == -1 {
        let sx = Fx { raw: d.x.raw }.mul_int(256);
        let sy = Fx { raw: d.y.raw }.mul_int(256);
        !(sx.raw == i32::MIN || sy.raw == i32::MIN)
    } else {
        true
    }
}


/// The scroll stop of the cell holding a position, if the compiled map
/// has one.
pub open spec fn scroll_stop_at(m: CompiledMap, cx: int, cy: int) -> Option<
    crate::collider::ScrollStop,
> {
    if exists|i: int|
        0 <= i < m.scroll_stops.len() && (#[trigger] m.scroll_stops[i]).cell_x as int == cx
            && m.scroll_stops[i].cell_y as int == cy {
        let i = choose|i: int|
            0 <= i < m.scroll_stops.len() && (#[trigger] m.scroll_stops[i]).cell_x as int == cx
                && m.scroll_stops[i].cell_y as int == cy;
        Some(m.scroll_stops[i].stop)
    } else {
        None
    }
}

/// The camera moved: the player and game state untouched, and the camera
/// at its lead-chasing destination, clamped by the scroll stop of the
/// cell the camera stood in, if that cell has one.
#[verifier::opaque]
pub open spec fn camera_post(oldg: GamePart, newg: GamePart, m: CompiledMap) -> bool {
    &&& newg.player == oldg.player
    &&& newg.last_gravity_source == oldg.last_gravity_source
    &&& newg.player_state == oldg.player_state
    &&& {
        let dest = camera_destination_spec(oldg);
        let cx = crate::map_data::div_floor_spec(
            crate::fixed::fx_floor(oldg.camera.position.x.raw as int),
            crate::map_data::SCROLL_STOP_BOX as int,
        );
        let cy = crate::map_data::div_floor_spec(
            crate::fixed::fx_floor(oldg.camera.position.y.raw as int),
            crate::map_data::SCROLL_STOP_BOX as int,
        );
        newg.camera.position == (match scroll_stop_at(m, cx, cy) {
            Some(st) => clamped_camera_spec(oldg, dest, st),
            None => dest,
        })
    }
}

/// The camera move of one tick, before scroll-stop clamping: the camera
/// chases a lead point ahead of the player (offset by the player's up and
/// scaled speed), moving a sixtieth of the gap, capped at 6 units, and
/// only when the lead point leaves the camera's dead-zone box.
#[verifier::opaque]
pub open spec fn camera_destination_spec(g: GamePart) -> Vec2 {
    let up = Vec2 { x: g.player.angle.b, y: fx2(fx_neg(g.player.angle.a.raw as int)) };
    let target = v_add(
        v_add(g.player.position, v_scale_int32(up, 32)),
        v_scale_int32(g.player.speed, 64),
    );
    let half = Vec2 { x: fx2(crate::fixed::fx_of_int(32)), y: fx2(crate::fixed::fx_of_int(16)) };
    let lo = v_sub(g.camera.position, half);
    let hi = v_add(lo, Vec2 { x: fx2(crate::fixed::fx_of_int(64)), y: fx2(crate::fixed::fx_of_int(32)) });
    let inside = lo.x.raw <= target.x.raw <= hi.x.raw && lo.y.raw <= target.y.raw <= hi.y.raw;
    if inside {
        g.camera.position
    } else {
        let offset = crate::vec2::v_divi(v_sub(target, g.camera.position), 60);
        let offset2 = if crate::vec2::v_magsq(offset) > 9216 {
            v_scale_int32(crate::vec2::v_norm(offset), 6)
        } else {
            offset
        };
        v_add(g.camera.position, offset2)
    }
}

/// Spec-level integer scaling shorthand.
pub open spec fn v_scale_int32(a: Vec2, k: int) -> Vec2 {
    Vec2 { x: fx2(fx_muli(a.x.raw as int, k)), y: fx2(fx_muli(a.y.raw as int, k)) }
}

/// One axis clamped by an active scroll stop, exactly as the original
/// nested option tests have it.
pub open spec fn clamped_camera_spec(g: GamePart, dest: Vec2, stop: crate::collider::ScrollStop) -> Vec2 {
    let x1 = match stop.minimum_x {
        Some(x_min) => if g.camera.position.x.raw >= x_min.raw {
            if dest.x.raw >= x_min.raw {
                dest.x
            } else {
                x_min
            }
        } else {
            dest.x
        },
        None => dest.x,
    };
    let y1 = match stop.minimum_y {
        Some(y_min) => if g.camera.position.y.raw >= y_min.raw {
            if dest.y.raw >= y_min.raw {
                dest.y
            } else {
                y_min
            }
        } else {
            dest.y
        },
        None => dest.y,
    };
    let x2 = match stop.maximum_x {
        Some(x_max) => if g.camera.position.x.raw <= x_max.raw {
            if x1.raw <= x_max.raw {
                x1
            } else {
                x_max
            }
        } else {
            x1
        },
        None => x1,
    };
    let y2 = match stop.maximum_y {
        Some(y_max) => if g.camera.position.y.raw <= y_max.raw {
            if y1.raw <= y_max.raw {
                y1
            } else {
                y_max
            }
        } else {
            y1
        },
        None => y1,
    };
    Vec2 { x: x2, y: y2 }
}

impl GamePart {
    /// Moves the camera towards its lead point and clamps it by the scroll
    /// stop of the cell it stands in, if any.
    #[verifier::rlimit(100)]
    #[verifier::spinoff_prover]
    pub fn update_camera(&mut self, m: &CompiledMap)
        requires
            crate::map_data::map_wf(*m),
        ensures
            camera_post(*old(self), *final(self), *m),
    {
        proof {
            reveal(camera_destination_spec);
            reveal(camera_post);
        }
        let up = self.player.get_normal();
        let target_position = self.player.position.add(up.scale_int(32)).add(
            self.player.speed.scale_int(64),
        );
        let half = Vec2 { x: Fx::from_int(32), y: Fx::from_int(16) };
        let lo = self.camera.position.sub(half);
        let hi = lo.add(Vec2 { x: Fx::from_int(64), y: Fx::from_int(32) });
        let inside = lo.x.raw <= target_position.x.raw && target_position.x.raw <= hi.x.raw
            && lo.y.raw <= target_position.y.raw && target_position.y.raw <= hi.y.raw;

        let camera_destination = if inside {
            self.camera.position
        } else {
            let offset = target_position.sub(self.camera.position).div_int(60);
            let offset2 = if offset.mag_sq().raw > 9216 {
                let msq = offset.mag_sq();
                let mag = msq.sqrt();
                proof {
                    crate::fixed::lemma_fx_sqrt_range(crate::vec2::v_magsq(offset));
                    assert(mag.raw != 0) by {
                        if mag.raw == 0 {
                            assert(crate::fixed::is_sqrt(msq.raw as int, 0));
                            assert(msq.raw < 1);
                        }
                    };
                }
                offset.div(mag).scale_int(6)
            } else {
                offset
            };
            self.camera.position.add(offset2)
        };

        let cx = self.camera.position.x.floor();
        let cy = self.camera.position.y.floor();
        let ghost cellx = crate::map_data::div_floor_spec(
            cx as int,
            crate::map_data::SCROLL_STOP_BOX as int,
        );
        let ghost celly = crate::map_data::div_floor_spec(
            cy as int,
            crate::map_data::SCROLL_STOP_BOX as int,
        );
        let dest = match m.get_scroll_stop(cx, cy) {
            Some(scroll_stop) => {
                let stop = *scroll_stop;
                proof {
                    let i = choose|i: int|
                        0 <= i < m.scroll_stops.len() && (#[trigger] m.scroll_stops[i]).cell_x
                            as int == cellx && m.scroll_stops[i].cell_y as int == celly;
                    let j = choose|j: int|
                        0 <= j < m.scroll_stops.len() && (#[trigger] m.scroll_stops[j]).cell_x
                            as int == cellx && m.scroll_stops[j].cell_y as int == celly
                            && m.scroll_stops[j].stop == stop;
                    crate::map_data::lemma_scroll_key_unique(*m, i, j);
                    assert(scroll_stop_at(*m, cellx, celly) == Some(stop));
                }
                let mut d = camera_destination;
                match stop.minimum_x {
                    Some(x_min) => {
                        if self.camera.position.x.raw >= x_min.raw {
                            if !(d.x.raw >= x_min.raw) {
                                d.x = x_min;
                            }
                        }
                    },
                    None => {},
                }
                match stop.minimum_y {
                    Some(y_min) => {
                        if self.camera.position.y.raw >= y_min.raw {
                            if !(d.y.raw >= y_min.raw) {
                                d.y = y_min;
                            }
                        }
                    },
                    None => {},
                }
                match stop.maximum_x {
                    Some(x_max) => {
                        if self.camera.position.x.raw <= x_max.raw {
                            if !(d.x.raw <= x_max.raw) {
                                d.x = x_max;
                            }
                        }
                    },
                    None => {},
                }
                match stop.maximum_y {
                    Some(y_max) => {
                        if self.camera.position.y.raw <= y_max.raw {
                            if !(d.y.raw <= y_max.raw) {
                                d.y = y_max;
                            }
                        }
                    },
                    None => {},
                }
                proof {
                    assert(d == clamped_camera_spec(*old(self), camera_destination, stop));
                }
                d
            },
            None => {
                proof {
                    if exists|i: int|
                        0 <= i < m.scroll_stops.len() && (#[trigger] m.scroll_stops[i]).cell_x
                            as int == cellx && m.scroll_stops[i].cell_y as int == celly {
                        let i = choose|i: int|
                            0 <= i < m.scroll_stops.len() && (#[trigger] m.scroll_stops[i]).cell_x
                                as int == cellx && m.scroll_stops[i].cell_y as int == celly;
                        assert(false);
                    }
                    assert(scroll_stop_at(*m, cellx, celly) is None);
                }
                camera_destination
            },
        };

        self.camera.position = dest;
    }

    /// One whole game tick: in normal play, apply the direction input, run
    /// the physics frame, perform a requested jump and advance the
    /// animation; in recovery, run the timed freeze, glide and pause
    /// phases and hand control back.  Then move the camera.  Returns the
    /// audio cues to play.
    pub fn update(
        &mut self,
        m: &CompiledMap,
        t: &crate::paths::Terrain,
        input: InputState,
    ) -> (r: Result<Vec<SfxCue>, TickFault>)
        requires
            crate::map_data::map_wf(*m),
            crate::paths::terrain_wf(*t, *m),
            -1 <= input.x_tri <= 1,
        ensures
            r is Err <==> !playing_ready(*old(self), *m, *t, input),
            match r {
                Ok(cues) => old(self).player_state is Playing ==> playing_tick_post(
                    *old(self),
                    *final(self),
                    *m,
                    *t,
                    input,
                    cues@,
                ),
                Err(_) => true,
            },
            match r {
                Ok(_) => match old(self).player_state {
                    PlayerState::Recovering(rec) => {
                        &&& (rec.time < 79 ==> (final(self).player_state matches
                            PlayerState::Recovering(rec2) && rec2 == (RecoveringState {
                            time: (rec.time + 1) as u32,
                            ..rec
                        })))
                        &&& (rec.time >= 79 ==> final(self).player_state is Playing)
                        &&& (rec.time + 1 < 16 ==> final(self).player.speed == (Vec2 {
                            x: Fx { raw: 0 },
                            y: Fx { raw: 0 },
                        }) && final(self).player.position == old(self).player.position)
                        &&& (16 <= rec.time + 1 < 64 ==> final(self).player.position
                            == recovery_glide_spec(rec, (rec.time + 1) as u32))
                    },
                    PlayerState::Playing { .. } => true,
                },
                Err(_) => true,
            },
    {
        let mut cues: Vec<SfxCue> = Vec::new();
        let ghost mut gh_p1 = self.player;
        let ghost mut gh_dashed = false;
        let ghost mut gh_g2 = *self;
        let ghost mut gh_landed = false;
        let ghost mut gh_died = false;
        let ghost mut gh_p3 = self.player;
        let ghost mut gh_jumped = false;
        let ghost mut gh_p4 = self.player;
        let ghost was_playing = self.player_state is Playing;
        let ghost mut gh_rpt: u32 = 0;
        let ghost mut gh_pop = Vec2 { x: Fx { raw: 0 }, y: Fx { raw: 0 } };
        match self.player_state {
            PlayerState::Playing { remaining_pop_time, pop_location } => {
                proof {
                    gh_rpt = remaining_pop_time;
                    gh_pop = pop_location;
                }
                let new_pop = if remaining_pop_time > 0 {
                    remaining_pop_time - 1
                } else {
                    0
                };
                self.player_state = PlayerState::Playing {
                    remaining_pop_time: new_pop,
                    pop_location,
                };

                let dashed = self.player.handle_direction_input(
                    input.x_tri,
                    input.is_dash_pressed,
                );
                proof {
                    gh_p1 = self.player;
                    gh_dashed = dashed;
                }
                if dashed {
                    cues.push(SfxCue::Dash);
                }
                let ghost st2 = self.player_state;
                let ghost at_call = *self;
                let (landed, died) = match self.physics_frame(m, t, input.jump_pressed) {
                    Ok(v) => v,
                    Err(e) => {
                        proof {
                            reveal(playing_ready);
                            assert forall|p1: Player, d: bool|
                                #[trigger] dir_input_post(
                                    old(self).player,
                                    p1,
                                    input.x_tri as int,
                                    input.is_dash_pressed,
                                    d,
                                ) implies !physics_ready(
                                GamePart { player: p1, player_state: st2, ..*old(self) },
                                *m,
                                *t,
                                input.jump_pressed,
                            ) by {
                                reveal(dir_input_post);
                                assert(p1 == gh_p1);
                                assert(GamePart {
                                    player: p1,
                                    player_state: st2,
                                    ..*old(self)
                                } == at_call);
                            }
                            assert(!playing_ready(*old(self), *m, *t, input));
                        }
                        return Err(e);
                    },
                };
                proof {
                    gh_g2 = *self;
                    gh_landed = landed;
                    gh_died = died;
                    reveal(playing_ready);
                    assert(GamePart { player: gh_p1, player_state: st2, ..*old(self) }
                        == at_call);
                    assert(physics_ready(at_call, *m, *t, input.jump_pressed));
                    assert forall|p1: Player, d: bool|
                        #[trigger] dir_input_post(
                            old(self).player,
                            p1,
                            input.x_tri as int,
                            input.is_dash_pressed,
                            d,
                        ) implies physics_ready(
                        GamePart { player: p1, player_state: st2, ..*old(self) },
                        *m,
                        *t,
                        input.jump_pressed,
                    ) by {
                        reveal(dir_input_post);
                        assert(p1 == gh_p1);
                        assert(GamePart { player: p1, player_state: st2, ..*old(self) }
                            == at_call);
                    }
                    assert(playing_ready(*old(self), *m, *t, input));
                }
                if landed {
                    cues.push(SfxCue::Land);
                }
                if died {
                    cues.push(SfxCue::Recovery);
                }

                let mut jumped = false;
                if input.jump_just_pressed {
                    jumped = self.player.handle_jump_input();
                    if jumped {
                        cues.push(SfxCue::Jump);
                    }
                }
                proof {
                    gh_p3 = self.player;
                    gh_jumped = jumped;
                }

                self.player.frame();
                proof {
                    gh_p4 = self.player;
                    assert(cues@ =~= cues_build(gh_dashed, gh_landed, gh_died, gh_jumped, false));
                }
            },
            PlayerState::Recovering(rec) => {
                let time = if rec.time < 4000000000 {
                    rec.time + 1
                } else {
                    rec.time
                };
                let rec2 = RecoveringState { time, ..rec };
                self.player_state = PlayerState::Recovering(rec2);
                if time < 16 {
                    self.player.speed = Vec2 { x: Fx { raw: 0 }, y: Fx { raw: 0 } };
                } else if time < 64 {
                    let position = recovery_glide_exec(&rec2);
                    self.player.position = position;
                } else if time < 80 {
                } else {
                    self.player_state = PlayerState::Playing {
                        remaining_pop_time: 16,
                        pop_location: self.player.position,
                    };
                }
                proof {
                    reveal(playing_ready);
                    assert(playing_ready(*old(self), *m, *t, input));
                }
            },
        }

        let ghost before_camera = *self;
        self.update_camera(m);
        proof {
            reveal(camera_post);
            assert(camera_post(before_camera, *self, *m));
        }

        if self.player.position.y.raw < -35840 {
            cues.push(SfxCue::SpaceMusic);
        }

        proof {
            if was_playing {
                let space = self.player.position.y.raw < -35840;
                assert(cues@ =~= cues_build(gh_dashed, gh_landed, gh_died, gh_jumped, space));
                assert(camera_post(GamePart { player: gh_p4, ..gh_g2 }, *self, *m));
                assert(jump_step_post(gh_g2.player, gh_p3, gh_jumped, input.jump_just_pressed));
                assert(frame_advance_post(gh_p3, gh_p4));
                assert(old(self).player_state == (PlayerState::Playing {
                    remaining_pop_time: gh_rpt,
                    pop_location: gh_pop,
                }));
                let w = TickWitness {
                    after_input: gh_p1,
                    dashed: gh_dashed,
                    after_physics: gh_g2,
                    landed: gh_landed,
                    died: gh_died,
                    after_jump: gh_p3,
                    jumped: gh_jumped,
                    after_frame: gh_p4,
                };
                assert(tick_chain(*old(self), *self, *m, *t, input, cues@, w));
                reveal(playing_tick_post);
                assert(playing_tick_post(*old(self), *self, *m, *t, input, cues@));
            }
        }

        Ok(cues)
    }
}

/// The jump step of a playing tick: a requested jump is performed, an
/// unrequested one changes nothing.
pub open spec fn jump_step_post(oldp: Player, newp: Player, jumped: bool, pressed: bool) -> bool {
    if pressed {
        jump_post(oldp, newp, jumped)
    } else {
        newp == oldp && !jumped
    }
}

/// The audio cues of one playing tick, in emission order: dash, landing,
/// recovery, jump, then the space-music trigger.
pub open spec fn cues_build(
    dashed: bool,
    landed: bool,
    died: bool,
    jumped: bool,
    space: bool,
) -> Seq<SfxCue> {
    (if dashed {
        seq![SfxCue::Dash]
    } else {
        Seq::empty()
    }) + (if landed {
        seq![SfxCue::Land]
    } else {
        Seq::empty()
    }) + (if died {
        seq![SfxCue::Recovery]
    } else {
        Seq::empty()
    }) + (if jumped {
        seq![SfxCue::Jump]
    } else {
        Seq::empty()
    }) + (if space {
        seq![SfxCue::SpaceMusic]
    } else {
        Seq::empty()
    })
}

/// The intermediate states and events of one playing tick.
pub struct TickWitness {
    pub after_input: Player,
    pub dashed: bool,
    pub after_physics: GamePart,
    pub landed: bool,
    pub died: bool,
    pub after_jump: Player,
    pub jumped: bool,
    pub after_frame: Player,
}

/// One playing tick decomposed through a witness of its intermediate
/// states: the pop timer counts down, the direction input is applied, the
/// physics tick runs, a requested jump is performed, the animation
/// advances, the camera moves, and the cues are exactly the events that
/// happened, in order.
pub open spec fn tick_chain(
    oldg: GamePart,
    newg: GamePart,
    m: CompiledMap,
    t: crate::paths::Terrain,
    input: InputState,
    cues: Seq<SfxCue>,
    w: TickWitness,
) -> bool {
    match oldg.player_state {
        PlayerState::Playing { remaining_pop_time, pop_location } => {
            let dec: u32 = if remaining_pop_time > 0 {
                (remaining_pop_time - 1) as u32
            } else {
                0
            };
            &&& dir_input_post(
                oldg.player,
                w.after_input,
                input.x_tri as int,
                input.is_dash_pressed,
                w.dashed,
            )
            &&& physics_tick_post(
                GamePart {
                    player: w.after_input,
                    player_state: PlayerState::Playing {
                        remaining_pop_time: dec,
                        pop_location,
                    },
                    ..oldg
                },
                w.after_physics,
                m,
                t,
                input.jump_pressed,
                w.landed,
                w.died,
            )
            &&& jump_step_post(
                w.after_physics.player,
                w.after_jump,
                w.jumped,
                input.jump_just_pressed,
            )
            &&& frame_advance_post(w.after_jump, w.after_frame)
            &&& camera_post(GamePart { player: w.after_frame, ..w.after_physics }, newg, m)
            &&& cues == cues_build(
                w.dashed,
                w.landed,
                w.died,
                w.jumped,
                newg.player.position.y.raw < -35840,
            )
        },
        PlayerState::Recovering(_) => false,
    }
}

/// A whole playing tick: some witness of intermediate states chains the
/// tick's steps; see `tick_chain`.
#[verifier::opaque]
pub open spec fn playing_tick_post(
    oldg: GamePart,
    newg: GamePart,
    m: CompiledMap,
    t: crate::paths::Terrain,
    input: InputState,
    cues: Seq<SfxCue>,
) -> bool {
    exists|w: TickWitness| #[trigger] tick_chain(oldg, newg, m, t, input, cues, w)
}

/// The recovery glide position at a tick:/// The recovery glide position at a tick: both endpoints are pushed out
/// along their reverse-gravity directions in opposite senses and the two
/// lines are blended linearly, without re-normalising.
pub open spec fn recovery_glide_spec(rec: RecoveringState, time: u32) -> Vec2 {
    let tq = fx2(
        crate::fixed::fx_div(crate::fixed::fx_of_int(time as int - 16), crate::fixed::fx_of_int(48)),
    );
    let one_minus = fx2(fx_add(fx_neg(tq.raw as int), 256));
    let start_line = v_add(
        rec.starting_from,
        v_scale_int32(v_scale(rec.starting_reverse_local_gravity, tq), 30),
    );
    let end_line = v_add(
        rec.recover_to,
        v_scale_int32(v_scale(rec.destination_reverse_local_gravity, one_minus), 30),
    );
    v_add(v_scale(start_line, one_minus), v_scale(end_line, tq))
}

/// Computes the recovery glide position; see `recovery_glide_spec`.
fn recovery_glide_exec(rec: &RecoveringState) -> (r: Vec2)
    requires
        16 <= rec.time < 64,
    ensures
        r == recovery_glide_spec(*rec, rec.time),
{
    let time_i: i32 = (rec.time as i32) - 16;
    let tq = Fx::from_int(time_i).div(Fx::from_int(48));
    let one_minus = tq.neg().add(Fx { raw: 256 });
    let start_line = rec.starting_from.add(
        rec.starting_reverse_local_gravity.scale(tq).scale_int(30),
    );
    let end_line = rec.recover_to.add(
        rec.destination_reverse_local_gravity.scale(one_minus).scale_int(30),
    );
    start_line.scale(one_minus).add(end_line.scale(tq))
}


/// Whether a placed power-up sits idle or is being collected.
#[derive(Clone, Copy, PartialEq, Eq, Structural, Debug)]
pub enum PowerUpState {
    Idle,
    Collecting,
}

/// A placed power-up: it starts collecting when the player comes close,
/// and is granted after its collection animation.
#[derive(Clone, Copy, PartialEq, Eq, Structural, Debug)]
pub struct PowerUpObject {
    pub location: Vec2,
    pub kind: crate::map_data::PowerUpKind,
    pub frame: usize,
    pub state: PowerUpState,
}

impl PowerUpObject {
    /// A fresh idle power-up at its authored placement.
    pub fn new(powerup: &crate::map_data::PowerUp) -> (r: PowerUpObject)
        ensures
            r.location == powerup.location,
            r.kind == powerup.kind,
            r.frame == 0,
            r.state == PowerUpState::Idle,
    {
        PowerUpObject {
            location: powerup.location,
            kind: powerup.kind,
            frame: 0,
            state: PowerUpState::Idle,
        }
    }

    /// One tick of the power-up: after 32 frames of collecting it is
    /// granted; an idle power-up starts collecting when the player comes
    /// within 16 units.  Returns the granted kind, and whether collection
    /// began this tick.
    pub fn update(&mut self, player_location: Vec2) -> (r: (
        Option<crate::map_data::PowerUpKind>,
        bool,
    ))
        ensures
            ({
                let frame2 = if old(self).frame == usize::MAX {
                    old(self).frame as int
                } else {
                    old(self).frame + 1
                };
                let granted = old(self).state == PowerUpState::Collecting && frame2 > 32;
                let dsq = crate::map_data::dist_sq_raw(player_location, old(self).location);
                let near = 0 <= dsq < 65536;
                let starts = !granted && old(self).state == PowerUpState::Idle && near;
                &&& r.0 == (if granted {
                    Some(old(self).kind)
                } else {
                    None
                })
                &&& r.1 == starts
                &&& final(self).location == old(self).location
                &&& final(self).kind == old(self).kind
                &&& final(self).state == (if starts {
                    PowerUpState::Collecting
                } else {
                    old(self).state
                })
                &&& final(self).frame == (if starts {
                    0
                } else {
                    frame2
                })
            }),
    {
        proof {
            reveal(crate::map_data::dist_sq_raw);
        }
        if self.frame == usize::MAX {
        } else {
            self.frame = self.frame + 1;
        }

        if self.state == PowerUpState::Collecting && self.frame > 32 {
            return (Some(self.kind), false);
        }

        let player_distance_sq = player_location.sub(self.location).mag_sq();

        if self.state == PowerUpState::Idle && player_distance_sq.raw >= 0
            && player_distance_sq.raw < 65536 {
            self.state = PowerUpState::Collecting;
            self.frame = 0;
            return (None, true);
        }
        (None, false)
    }
}

impl GamePart {
    /// Advances every placed power-up, granting collected ones to the
    /// player and removing them; returns whether any collection began
    /// (the cue) and whether any was granted.
    pub fn collect_powerups(&mut self, powerups: &mut Vec<PowerUpObject>) -> (r: (bool, bool))
        ensures
            final(self).camera == old(self).camera,
            final(self).player_state == old(self).player_state,
            final(self).last_gravity_source == old(self).last_gravity_source,
    {
        let mut kept: Vec<PowerUpObject> = Vec::new();
        let mut started = false;
        let mut granted = false;
        let mut i: usize = 0;
        while i < powerups.len()
            invariant
                i <= powerups@.len(),
                self.camera == old(self).camera,
                self.player_state == old(self).player_state,
                self.last_gravity_source == old(self).last_gravity_source,
            decreases powerups.len() - i,
        {
            let mut p = powerups[i];
            let (got, starts) = p.update(self.player.position);
            if starts {
                started = true;
            }
            match got {
                Some(kind) => {
                    granted = true;
                    if self.player.max_jumps < 1000 && self.player.jumps_remaining < 1000 {
                        self.player.apply_powerup(kind);
                    }
                },
                None => {
                    kept.push(p);
                },
            }
            i = i + 1;
        }
        *powerups = kept;
        (started, granted)
    }
}

} // verus!
