//! Per-actor locomotion and combat state.
//!
//! An `Actor` holds the immutable tuning parameters of an entity together
//! with the intent (movement / jump / attack) written by input or AI each
//! tick; an `ActorStatus` holds the sensed and integrated runtime state.
//! The three per-tick steps — `actor_status` (sensing), `actor_movement`
//! (velocity integration and translation request) and `actor_attack`
//! (attack timing and hit-query emission) — are deterministic functions of
//! that state, and their contracts state the produced values exactly.
//!
//! Discrete occurrences (landing, launching, attacking, hitting, dying,
//! winning, picking up, unlocking) are appended to a per-actor event queue
//! that presentation consumers read and `actor_event_clear` empties once
//! per tick, so no producer ever silently overwrites another.

use vstd::math::abs;
use vstd::prelude::*;

use crate::fixed::{
    add_capped, clamp_fp, div_fp, fdiv, fmul, lemma_tdiv_bounds, min_int, mul_fp, sclamp,
};
use crate::vec2::Vec2;

verus! {

/// Longest accepted tick, one second.
pub const DT_MAX: i64 = 1000;

/// Largest accepted tuning parameter (speeds, accelerations, ranges,
/// durations).
pub const CFG_MAX: i64 = 1_000_000_000;

/// Largest accepted per-tick effective translation reported by the physics
/// collaborator.
pub const TRANS_MAX: i64 = 1_000_000_000;

/// Bound kept on each velocity component.
pub const VEL_MAX: i64 = 2_000_000_000_000;

/// Cap at which the accumulated timers saturate; far beyond any threshold
/// they are compared against.
pub const TIMER_MAX: i64 = 1_000_000_000_000_000;

/// Largest accepted position component.
pub const POS_MAX: i64 = 1_000_000_000;

/// Movement intent below this magnitude counts as no input: drag applies
/// and facing holds.
pub const DEAD_ZONE: i64 = 100;

/// Extra reach added to the attack range when placing the hit query.
pub const ATTACK_MARGIN: i64 = 5_010;

/// Immutable tuning parameters plus the per-tick intent of one actor.
#[derive(Clone, Debug)]
pub struct Actor {
    pub move_speed: i64,
    pub drag: i64,
    pub accel: i64,
    pub deccel: i64,
    pub up_gravity: i64,
    pub down_gravity: i64,
    pub jump_speed: i64,
    pub jump_time: i64,
    pub attack_time: i64,
    pub attack_range: i64,
    pub move_input: i64,
    pub jump_input: bool,
    pub can_jump: bool,
    pub attack_input: Option<Vec2>,
    pub can_attack: bool,
}

/// A discrete per-actor occurrence, queued for the presentation consumers.
#[derive(Clone, Copy, Debug, PartialEq, Eq, Structural)]
pub enum ActorEvent {
    Launched,
    Landed,
    Attack,
    Hit,
    Died,
    Win,
    Pickup,
    Unlock,
}

/// Sensed and integrated runtime state of one actor.
#[derive(Clone, Debug)]
pub struct ActorStatus {
    pub grounded: bool,
    pub velocity: Vec2,
    pub facing_left: bool,
    pub air_timer: i64,
    pub attack_direction: Option<Vec2>,
    pub attack_timer: i64,
    pub left_wall: bool,
    pub right_wall: bool,
    pub events: Vec<ActorEvent>,
    pub last_dt: i64,
}

/// A hit query the attack resolver asks the physics collaborator to run: a
/// ball of radius `radius` centred at `center`.
#[derive(Clone, Copy, Debug, PartialEq, Eq, Structural)]
pub struct AttackQuery {
    pub center: Vec2,
    pub radius: i64,
}

/// A melee-hit target: tagged when struck, with the origin of the blow.
#[derive(Clone, Copy, Debug, PartialEq, Eq, Structural)]
pub struct Scythable {
    pub scythed: bool,
    pub hit_from: Option<Vec2>,
}

impl Actor {
    /// Tuning and intent in the ranges every contract assumes.
    pub open spec fn wf(self) -> bool {
        &&& 0 <= self.move_speed <= CFG_MAX
        &&& 0 <= self.drag <= 1000
        &&& 0 <= self.accel <= CFG_MAX
        &&& 0 <= self.deccel <= CFG_MAX
        &&& 0 <= self.up_gravity <= CFG_MAX
        &&& 0 <= self.down_gravity <= CFG_MAX
        &&& 0 <= self.jump_speed <= CFG_MAX
        &&& 0 <= self.jump_time <= CFG_MAX
        &&& 1 <= self.attack_time <= CFG_MAX
        &&& 0 <= self.attack_range <= CFG_MAX
        &&& -1000 <= self.move_input <= 1000
        &&& match self.attack_input {
            Some(d) => -1000 <= d.x <= 1000 && -1000 <= d.y <= 1000,
            None => true,
        }
    }
}

impl Default for Actor {
    /// The stock tuning an entity gets before level data patches it.
    fn default() -> (r: Actor)
        ensures
            r == default_actor(),
            r.wf(),
    {
        Actor {
            move_speed: 120_000,
            drag: 300,
            accel: 1_000_000,
            deccel: 2_000_000,
            up_gravity: 300_000,
            down_gravity: 500_000,
            jump_speed: 800_000,
            jump_time: 200,
            attack_time: 200,
            attack_range: 16_000,
            move_input: 0,
            jump_input: false,
            can_jump: false,
            attack_input: None,
            can_attack: true,
        }
    }
}

/// The stock actor tuning, for contracts that speak about defaults.
pub open spec fn default_actor() -> Actor {
    Actor {
        move_speed: 120_000,
        drag: 300,
        accel: 1_000_000,
        deccel: 2_000_000,
        up_gravity: 300_000,
        down_gravity: 500_000,
        jump_speed: 800_000,
        jump_time: 200,
        attack_time: 200,
        attack_range: 16_000,
        move_input: 0,
        jump_input: false,
        can_jump: false,
        attack_input: None,
        can_attack: true,
    }
}

impl ActorStatus {
    /// Runtime state in the ranges every contract assumes.
    pub open spec fn wf(self) -> bool {
        &&& -VEL_MAX <= self.velocity.x <= VEL_MAX
        &&& -VEL_MAX <= self.velocity.y <= VEL_MAX
        &&& 0 <= self.air_timer <= TIMER_MAX
        &&& 0 <= self.attack_timer <= TIMER_MAX
        &&& 0 <= self.last_dt <= DT_MAX
        &&& match self.attack_direction {
            Some(d) => -1000 <= d.x <= 1000 && -1000 <= d.y <= 1000,
            None => true,
        }
    }

    /// The all-zero state an actor spawns with.
    pub fn new() -> (r: ActorStatus)
        ensures
            !r.grounded,
            r.velocity == (Vec2 { x: 0, y: 0 }),
            !r.facing_left,
            r.air_timer == 0,
            r.attack_direction is None,
            r.attack_timer == 0,
            !r.left_wall,
            !r.right_wall,
            r.events@ == Seq::<ActorEvent>::empty(),
            r.last_dt == 0,
            r.wf(),
    {
        ActorStatus {
            grounded: false,
            velocity: Vec2 { x: 0, y: 0 },
            facing_left: false,
            air_timer: 0,
            attack_direction: None,
            attack_timer: 0,
            left_wall: false,
            right_wall: false,
            events: Vec::new(),
            last_dt: 0,
        }
    }
}

/// The sign a turn-around test sees: zero counts as positive.
pub open spec fn sign_of(v: int) -> int {
    if v >= 0 {
        1
    } else {
        -1
    }
}

/// Horizontal velocity recovered from the previous integration step; a zero
/// cached delta leaves the previous velocity untouched instead of dividing.
pub open spec fn sensed_vx(s: ActorStatus, tx: int) -> int {
    if s.last_dt > 0 {
        fdiv(tx, s.last_dt as int)
    } else {
        s.velocity.x as int
    }
}

/// Vertical velocity recovered the same way, forced to zero on the ground
/// so no residual fall speed corrupts the next jump.
pub open spec fn sensed_vy(s: ActorStatus, ty: int, grounded: bool) -> int {
    if grounded {
        0
    } else if s.last_dt > 0 {
        fdiv(ty, s.last_dt as int)
    } else {
        s.velocity.y as int
    }
}

/// Sensing step: adopt the physics collaborator's last integration output.
///
/// `effective_translation` is what the kinematic controller actually moved
/// the actor last tick; `left_cast` / `right_cast` are the results of the
/// two sideways shape casts (distance to the hit, `None` on a miss within
/// the probe distance).
pub fn actor_status(
    status: &mut ActorStatus,
    grounded_now: bool,
    effective_translation: Vec2,
    left_cast: Option<i64>,
    right_cast: Option<i64>,
    dt: i64,
)
    requires
        old(status).wf(),
        0 <= dt <= DT_MAX,
        -TRANS_MAX <= effective_translation.x <= TRANS_MAX,
        -TRANS_MAX <= effective_translation.y <= TRANS_MAX,
    ensures
        final(status).wf(),
        final(status).grounded == grounded_now,
        final(status).left_wall == left_cast is Some,
        final(status).right_wall == right_cast is Some,
        final(status).velocity.x == sensed_vx(*old(status), effective_translation.x as int),
        final(status).velocity.y == sensed_vy(
            *old(status),
            effective_translation.y as int,
            grounded_now,
        ),
        old(status).last_dt > 0 ==> -1_000_000_000_000 <= final(status).velocity.x
            <= 1_000_000_000_000 && -1_000_000_000_000 <= final(status).velocity.y
            <= 1_000_000_000_000,
        final(status).air_timer == if grounded_now {
            0int
        } else {
            min_int(old(status).air_timer + dt, TIMER_MAX as int)
        },
        final(status).events@ == if !old(status).grounded && grounded_now {
            old(status).events@.push(ActorEvent::Landed)
        } else {
            old(status).events@
        },
        final(status).facing_left == old(status).facing_left,
        final(status).attack_direction == old(status).attack_direction,
        final(status).attack_timer == old(status).attack_timer,
        final(status).last_dt == old(status).last_dt,
{
    if !status.grounded && grounded_now {
        status.events.push(ActorEvent::Landed);
    }
    status.grounded = grounded_now;

    if status.last_dt > 0 {
        proof {
            lemma_tdiv_bounds(effective_translation.x * 1000, status.last_dt as int);
            lemma_tdiv_bounds(effective_translation.y * 1000, status.last_dt as int);
        }
        let vx = div_fp(effective_translation.x, status.last_dt);
        let vy = div_fp(effective_translation.y, status.last_dt);
        status.velocity = Vec2 { x: vx, y: vy };
    }

    if status.grounded {
        status.air_timer = 0;
        status.velocity = Vec2 { x: status.velocity.x, y: 0 };
    } else {
        status.air_timer = add_capped(status.air_timer, dt, TIMER_MAX);
    }

    status.left_wall = left_cast.is_some();
    status.right_wall = right_cast.is_some();
}

/// Acceleration when input pushes along the current motion, deceleration
/// when it pushes against it (the turn-around penalty).
pub open spec fn chosen_accel(a: Actor, vx: int) -> int {
    if sign_of(a.move_input as int) == sign_of(vx) {
        a.accel as int
    } else {
        a.deccel as int
    }
}

/// Horizontal velocity after the acceleration term.
pub open spec fn vx_accelerated(a: Actor, vx: int, dt: int) -> int {
    vx + fmul(fmul(a.move_input as int, chosen_accel(a, vx)), dt)
}

/// Horizontal velocity after drag, applied only in the input dead zone.
pub open spec fn vx_dragged(a: Actor, vx: int) -> int {
    if -DEAD_ZONE < a.move_input < DEAD_ZONE {
        fmul(vx, 1000 - a.drag)
    } else {
        vx
    }
}

/// Horizontal velocity clamped to the actor's top speed.
pub open spec fn vx_clamped(a: Actor, vx: int) -> int {
    sclamp(vx, -a.move_speed as int, a.move_speed as int)
}

/// Horizontal velocity zeroed when moving into a sensed wall.
pub open spec fn vx_walled(vx: int, left_wall: bool, right_wall: bool) -> int {
    if (vx > 0 && right_wall) || (vx < 0 && left_wall) {
        0
    } else {
        vx
    }
}

/// Horizontal velocity before the wall test: accelerate, drag, clamp.
pub open spec fn vx_before_walls(a: Actor, s: ActorStatus, dt: int) -> int {
    vx_clamped(a, vx_dragged(a, vx_accelerated(a, s.velocity.x as int, dt)))
}

/// The full horizontal integration.
pub open spec fn integrated_vx(a: Actor, s: ActorStatus, dt: int) -> int {
    vx_walled(vx_before_walls(a, s, dt), s.left_wall, s.right_wall)
}

/// The gravity applied while airborne, chosen by the sign of the vertical
/// velocity.
pub open spec fn gravity_of(a: Actor, vy: int) -> int {
    if vy > 0 {
        a.down_gravity as int
    } else {
        a.up_gravity as int
    }
}

/// The full vertical integration: an instantaneous launch on a jump,
/// gravity while airborne, the sensor-forced zero while grounded.
pub open spec fn integrated_vy(a: Actor, s: ActorStatus, dt: int) -> int {
    if a.can_jump && a.jump_input {
        a.jump_speed as int
    } else if !s.grounded {
        s.velocity.y - fmul(gravity_of(a, s.velocity.y as int), dt)
    } else {
        s.velocity.y as int
    }
}

/// Facing after this tick's input: a dead-zone input leaves it unchanged.
pub open spec fn facing_after(a: Actor, facing_left: bool) -> bool {
    if a.move_input > DEAD_ZONE {
        false
    } else if a.move_input < -DEAD_ZONE {
        true
    } else {
        facing_left
    }
}

/// Integration step: turn intent and sensed state into a new velocity and a
/// translation request for the kinematic controller.
pub fn actor_movement(actor: &Actor, status: &mut ActorStatus, dt: i64) -> (translation: Vec2)
    requires
        actor.wf(),
        old(status).wf(),
        0 <= dt <= DT_MAX,
        -(VEL_MAX - CFG_MAX) <= old(status).velocity.x <= VEL_MAX - CFG_MAX,
        -(VEL_MAX - CFG_MAX) <= old(status).velocity.y <= VEL_MAX - CFG_MAX,
    ensures
        final(status).wf(),
        final(status).velocity.x == integrated_vx(*actor, *old(status), dt as int),
        -actor.move_speed <= final(status).velocity.x <= actor.move_speed,
        old(status).right_wall && vx_before_walls(*actor, *old(status), dt as int) > 0
            ==> final(status).velocity.x == 0,
        old(status).left_wall && vx_before_walls(*actor, *old(status), dt as int) < 0
            ==> final(status).velocity.x == 0,
        final(status).velocity.y == integrated_vy(*actor, *old(status), dt as int),
        actor.can_jump && actor.jump_input ==> final(status).velocity.y == actor.jump_speed,
        final(status).facing_left == facing_after(*actor, old(status).facing_left),
        final(status).events@ == if actor.can_jump && actor.jump_input && old(status).grounded {
            old(status).events@.push(ActorEvent::Launched)
        } else {
            old(status).events@
        },
        translation.x == fmul(final(status).velocity.x as int, dt as int),
        translation.y == fmul(final(status).velocity.y as int, dt as int),
        final(status).last_dt == dt,
        final(status).grounded == old(status).grounded,
        final(status).left_wall == old(status).left_wall,
        final(status).right_wall == old(status).right_wall,
        final(status).air_timer == old(status).air_timer,
        final(status).attack_direction == old(status).attack_direction,
        final(status).attack_timer == old(status).attack_timer,
{
    let dir_match = (actor.move_input >= 0) == (status.velocity.x >= 0);
    let accel = if dir_match {
        actor.accel
    } else {
        actor.deccel
    };
    proof {
        assert(actor.move_input * accel <= 1000 * CFG_MAX && actor.move_input * accel >= -(1000
            * CFG_MAX)) by (nonlinear_arith)
            requires
                -1000 <= actor.move_input <= 1000 && 0 <= accel <= CFG_MAX,
        ;
        lemma_tdiv_bounds(actor.move_input * accel, 1000);
    }
    let push = mul_fp(actor.move_input, accel);
    proof {
        assert(push * dt <= CFG_MAX * DT_MAX && push * dt >= -(CFG_MAX * DT_MAX))
            by (nonlinear_arith)
            requires
                -CFG_MAX <= push <= CFG_MAX && 0 <= dt <= DT_MAX,
        ;
        lemma_tdiv_bounds(push * dt, 1000);
    }
    let delta = mul_fp(push, dt);
    let mut vx = status.velocity.x + delta;

    if actor.move_input > DEAD_ZONE {
        status.facing_left = false;
    } else if actor.move_input < -DEAD_ZONE {
        status.facing_left = true;
    }

    if -DEAD_ZONE < actor.move_input && actor.move_input < DEAD_ZONE {
        proof {
            assert(vx * (1000 - actor.drag) <= VEL_MAX * 1000 && vx * (1000 - actor.drag)
                >= -(VEL_MAX * 1000)) by (nonlinear_arith)
                requires
                    -VEL_MAX <= vx <= VEL_MAX && 0 <= 1000 - actor.drag <= 1000,
            ;
            lemma_tdiv_bounds(vx * (1000 - actor.drag), 1000);
        }
        vx = mul_fp(vx, 1000 - actor.drag);
    }

    vx = clamp_fp(vx, -actor.move_speed, actor.move_speed);

    if (vx > 0 && status.right_wall) || (vx < 0 && status.left_wall) {
        vx = 0;
    }

    let mut vy = status.velocity.y;
    if actor.can_jump && actor.jump_input {
        vy = actor.jump_speed;
        if status.grounded {
            status.events.push(ActorEvent::Launched);
        }
    } else if !status.grounded {
        let gravity = if vy > 0 {
            actor.down_gravity
        } else {
            actor.up_gravity
        };
        proof {
            assert(gravity * dt <= CFG_MAX * DT_MAX && gravity * dt >= 0) by (nonlinear_arith)
                requires
                    0 <= gravity <= CFG_MAX && 0 <= dt <= DT_MAX,
            ;
            lemma_tdiv_bounds(gravity * dt, 1000);
        }
        vy = vy - mul_fp(gravity, dt);
    }

    status.velocity = Vec2 { x: vx, y: vy };
    status.last_dt = dt;
    proof {
        assert(vx * dt <= CFG_MAX * DT_MAX && vx * dt >= -(CFG_MAX * DT_MAX)) by (nonlinear_arith)
            requires
                -CFG_MAX <= vx <= CFG_MAX && 0 <= dt <= DT_MAX,
        ;
        assert(vy * dt <= VEL_MAX * DT_MAX && vy * dt >= -(VEL_MAX * DT_MAX)) by (nonlinear_arith)
            requires
                -VEL_MAX <= vy <= VEL_MAX && 0 <= dt <= DT_MAX,
        ;
        lemma_tdiv_bounds(vx * dt, 1000);
        lemma_tdiv_bounds(vy * dt, 1000);
    }
    Vec2 { x: mul_fp(vx, dt), y: mul_fp(vy, dt) }
}

/// Whatever the intent and the prior state, one integration leaves the
/// horizontal velocity within the actor's top speed.
pub proof fn lemma_speed_always_clamped(a: Actor, s: ActorStatus, dt: int)
    requires
        a.wf(),
    ensures
        -a.move_speed <= integrated_vx(a, s, dt) <= a.move_speed,
{
}

/// Motion into a sensed wall is cancelled: with a wall on the right and the
/// pre-wall velocity pushing rightward, the integrated velocity is zero,
/// and symmetrically on the left.
pub proof fn lemma_wall_blocks_motion(a: Actor, s: ActorStatus, dt: int)
    ensures
        s.right_wall && vx_before_walls(a, s, dt) > 0 ==> integrated_vx(a, s, dt) == 0,
        s.left_wall && vx_before_walls(a, s, dt) < 0 ==> integrated_vx(a, s, dt) == 0,
{
}

/// With the movement intent in the dead zone, no wall contact and any drag
/// at all, the horizontal speed strictly shrinks every integration: drag is
/// dissipative. The one family of inputs left out is a dead-zone intent
/// whose acceleration term still rounds to something nonzero (possible
/// with an extreme acceleration tuning), which can outweigh the drag.
pub proof fn lemma_drag_dissipates(a: Actor, s: ActorStatus, dt: int)
    requires
        a.wf(),
        s.wf(),
        0 <= dt <= DT_MAX,
        -DEAD_ZONE < a.move_input < DEAD_ZONE,
        fmul(fmul(a.move_input as int, chosen_accel(a, s.velocity.x as int)), dt) == 0,
        a.drag >= 1,
        s.velocity.x != 0,
        !s.left_wall,
        !s.right_wall,
    ensures
        abs(integrated_vx(a, s, dt)) < abs(s.velocity.x as int),
{
    let vx = s.velocity.x as int;
    assert(vx_accelerated(a, vx, dt) == vx);
    let dragged = vx_dragged(a, vx);
    crate::fixed::lemma_fmul_shrinks(vx, 1000 - a.drag);
    assert(abs(dragged) < abs(vx));
    let clamped = vx_clamped(a, dragged);
    assert(abs(clamped) <= abs(dragged));
    assert(integrated_vx(a, s, dt) == clamped);
}

/// One tick's effect on the attack timer: accumulate, saturating at the
/// cap.
pub open spec fn attack_step_timer(t: int, dt: int) -> int {
    min_int(t + dt, TIMER_MAX as int)
}

/// Whether an active attack is still running after a tick of `dt`.
pub open spec fn attack_survives(a: Actor, t: int, dt: int) -> bool {
    t + dt < a.attack_time
}

/// Attack resolution step: run the attack state machine and, while an
/// attack is active, hand back the hit query to run this tick.
///
/// Starting tick: an attack intent with `can_attack`, while idle, arms the
/// attack (direction stored, timer zeroed) and queues the `Attack` event.
/// Active ticks: the timer accumulates; once it reaches `attack_time` the
/// attack ends and no further queries are issued; until then the query is a
/// ball of radius `attack_range` centred `attack_range + ATTACK_MARGIN`
/// along the attack direction from `pos`.
pub fn actor_attack(actor: &Actor, status: &mut ActorStatus, pos: Vec2, dt: i64) -> (query: Option<
    AttackQuery,
>)
    requires
        actor.wf(),
        old(status).wf(),
        0 <= dt <= DT_MAX,
        -POS_MAX <= pos.x <= POS_MAX,
        -POS_MAX <= pos.y <= POS_MAX,
    ensures
        final(status).wf(),
        match old(status).attack_direction {
            Some(d) => {
                &&& final(status).attack_timer == attack_step_timer(
                    old(status).attack_timer as int,
                    dt as int,
                )
                &&& if !attack_survives(*actor, old(status).attack_timer as int, dt as int) {
                    final(status).attack_direction is None && query is None
                } else {
                    final(status).attack_direction == Some(d) && query == Some(
                        attack_query_at(*actor, pos, d),
                    )
                }
                &&& final(status).events@ == old(status).events@
            },
            None => {
                &&& query is None
                &&& if actor.can_attack && actor.attack_input is Some {
                    &&& final(status).attack_direction == actor.attack_input
                    &&& final(status).attack_timer == 0
                    &&& final(status).events@ == old(status).events@.push(ActorEvent::Attack)
                } else {
                    &&& final(status).attack_direction is None
                    &&& final(status).attack_timer == old(status).attack_timer
                    &&& final(status).events@ == old(status).events@
                }
            },
        },
        final(status).grounded == old(status).grounded,
        final(status).velocity == old(status).velocity,
        final(status).facing_left == old(status).facing_left,
        final(status).air_timer == old(status).air_timer,
        final(status).left_wall == old(status).left_wall,
        final(status).right_wall == old(status).right_wall,
        final(status).last_dt == old(status).last_dt,
{
    match status.attack_direction {
        Some(d) => {
            status.attack_timer = add_capped(status.attack_timer, dt, TIMER_MAX);
            if status.attack_timer >= actor.attack_time {
                status.attack_direction = None;
                None
            } else {
                let reach = actor.attack_range + ATTACK_MARGIN;
                proof {
                    assert(d.x * reach <= 1000 * (CFG_MAX + ATTACK_MARGIN) && d.x * reach
                        >= -(1000 * (CFG_MAX + ATTACK_MARGIN))) by (nonlinear_arith)
                        requires
                            -1000 <= d.x <= 1000 && 0 <= reach <= CFG_MAX + ATTACK_MARGIN,
                    ;
                    assert(d.y * reach <= 1000 * (CFG_MAX + ATTACK_MARGIN) && d.y * reach
                        >= -(1000 * (CFG_MAX + ATTACK_MARGIN))) by (nonlinear_arith)
                        requires
                            -1000 <= d.y <= 1000 && 0 <= reach <= CFG_MAX + ATTACK_MARGIN,
                    ;
                    lemma_tdiv_bounds(d.x * reach, 1000);
                    lemma_tdiv_bounds(d.y * reach, 1000);
                }
                let offset = d.scaled(reach);
                let center = pos.plus(offset);
                Some(AttackQuery { center, radius: actor.attack_range })
            }
        },
        None => {
            if actor.can_attack && actor.attack_input.is_some() {
                status.attack_direction = actor.attack_input;
                status.attack_timer = 0;
                status.events.push(ActorEvent::Attack);
            }
            None
        },
    }
}

/// Where an attack from `pos` along `d` queries for targets.
pub open spec fn attack_query_at(a: Actor, pos: Vec2, d: Vec2) -> AttackQuery {
    AttackQuery {
        center: Vec2 {
            x: (pos.x + fmul(d.x as int, a.attack_range + ATTACK_MARGIN as int)) as i64,
            y: (pos.y + fmul(d.y as int, a.attack_range + ATTACK_MARGIN as int)) as i64,
        },
        radius: a.attack_range,
    }
}

/// Tag every target the hit query returned and queue one `Hit` per target.
///
/// Targets may be tagged again on later ticks until their own handler
/// consumes the tag; the consuming handler removes it, so re-tagging is
/// harmless.
pub fn apply_attack_hits(
    status: &mut ActorStatus,
    attacker_pos: Vec2,
    targets: &mut Vec<Scythable>,
)
    ensures
        final(status).wf() == old(status).wf(),
        final(targets).len() == old(targets).len(),
        forall|i: int|
            0 <= i < final(targets).len() ==> final(targets)[i] == (Scythable {
                scythed: true,
                hit_from: Some(attacker_pos),
            }),
        final(status).events@ == old(status).events@ + Seq::new(
            old(targets).len() as nat,
            |i: int| ActorEvent::Hit,
        ),
        final(status).grounded == old(status).grounded,
        final(status).velocity == old(status).velocity,
        final(status).facing_left == old(status).facing_left,
        final(status).air_timer == old(status).air_timer,
        final(status).attack_direction == old(status).attack_direction,
        final(status).attack_timer == old(status).attack_timer,
        final(status).left_wall == old(status).left_wall,
        final(status).right_wall == old(status).right_wall,
        final(status).last_dt == old(status).last_dt,
{
    let n = targets.len();
    let mut i: usize = 0;
    while i < n
        invariant
            i <= n,
            n == targets.len(),
            n == old(targets).len(),
            forall|j: int|
                0 <= j < i ==> targets[j] == (Scythable {
                    scythed: true,
                    hit_from: Some(attacker_pos),
                }),
            status.events@ == old(status).events@ + Seq::new(
                i as nat,
                |k: int| ActorEvent::Hit,
            ),
            status.wf() == old(status).wf(),
            status.grounded == old(status).grounded,
            status.velocity == old(status).velocity,
            status.facing_left == old(status).facing_left,
            status.air_timer == old(status).air_timer,
            status.attack_direction == old(status).attack_direction,
            status.attack_timer == old(status).attack_timer,
            status.left_wall == old(status).left_wall,
            status.right_wall == old(status).right_wall,
            status.last_dt == old(status).last_dt,
        decreases n - i,
    {
        targets.set(i, Scythable { scythed: true, hit_from: Some(attacker_pos) });
        status.events.push(ActorEvent::Hit);
        i = i + 1;
        proof {
            assert(status.events@ =~= old(status).events@ + Seq::new(
                i as nat,
                |k: int| ActorEvent::Hit,
            ));
        }
    }
}

/// End-of-tick step: empty the event queue after every consumer ran, so an
/// occurrence is presented at most once.
pub fn actor_event_clear(status: &mut ActorStatus)
    ensures
        final(status).events@ == Seq::<ActorEvent>::empty(),
        final(status).wf() == old(status).wf(),
        final(status).grounded == old(status).grounded,
        final(status).velocity == old(status).velocity,
        final(status).facing_left == old(status).facing_left,
        final(status).air_timer == old(status).air_timer,
        final(status).attack_direction == old(status).attack_direction,
        final(status).attack_timer == old(status).attack_timer,
        final(status).left_wall == old(status).left_wall,
        final(status).right_wall == old(status).right_wall,
        final(status).last_dt == old(status).last_dt,
{
    status.events = Vec::new();
}

/// Sum of a sequence of tick lengths.
pub open spec fn seq_sum(dts: Seq<int>) -> int
    decreases dts.len(),
{
    if dts.len() == 0 {
        0
    } else {
        seq_sum(dts.drop_last()) + dts.last()
    }
}

/// The attack timer after a run of ticks, starting from `t0`, each tick
/// applying `attack_step_timer`.
pub open spec fn attack_timer_after(t0: int, dts: Seq<int>) -> int
    decreases dts.len(),
{
    if dts.len() == 0 {
        t0
    } else {
        attack_step_timer(attack_timer_after(t0, dts.drop_last()), dts.last())
    }
}

/// Whether an attack started with timer `t0` is still active after a run of
/// ticks, each tick applying `attack_survives` to the accumulated timer.
pub open spec fn attack_active_after(a: Actor, t0: int, dts: Seq<int>) -> bool
    decreases dts.len(),
{
    if dts.len() == 0 {
        true
    } else {
        attack_active_after(a, t0, dts.drop_last()) && attack_survives(
            a,
            attack_timer_after(t0, dts.drop_last()),
            dts.last(),
        )
    }
}

/// While an attack stays active its timer is the plain sum of the elapsed
/// ticks (the saturation cap is never reached), and that sum stays below
/// `attack_time`.
proof fn lemma_active_attack_timer_is_sum(a: Actor, t0: int, dts: Seq<int>)
    requires
        a.wf(),
        0 <= t0 <= TIMER_MAX,
        forall|i: int| 0 <= i < dts.len() ==> 0 <= #[trigger] dts[i],
        attack_active_after(a, t0, dts),
    ensures
        attack_timer_after(t0, dts) == t0 + seq_sum(dts),
        dts.len() > 0 ==> t0 + seq_sum(dts) < a.attack_time,
    decreases dts.len(),
{
    if dts.len() > 0 {
        let prefix = dts.drop_last();
        lemma_active_attack_timer_is_sum(a, t0, prefix);
        assert(dts.last() >= 0);
        let before = attack_timer_after(t0, prefix);
        assert(before + dts.last() < a.attack_time);
        assert(a.attack_time <= TIMER_MAX);
    }
}

/// Attack lifecycle: an attack armed with timer zero ends — and with it the
/// per-tick hit queries — once the elapsed ticks sum to at least
/// `attack_time`.
pub proof fn lemma_attack_expires(a: Actor, dts: Seq<int>)
    requires
        a.wf(),
        forall|i: int| 0 <= i < dts.len() ==> 0 <= #[trigger] dts[i],
        seq_sum(dts) >= a.attack_time,
    ensures
        !attack_active_after(a, 0, dts),
{
    if attack_active_after(a, 0, dts) {
        if dts.len() == 0 {
            assert(seq_sum(dts) == 0);
        } else {
            lemma_active_attack_timer_is_sum(a, 0, dts);
        }
    }
}

} // verus!
