//! Soul pickups and their autonomous flight.
//!
//! A soul either idles on a fixed low-speed wander (when it cannot move) or
//! flies a potential-field heuristic: it flees the player with a cubic
//! close-range falloff, centres itself toward the side with more free
//! space, restores its height with a downward bias that grows cubically
//! with the space below it, and adds a small wander for organic motion.
//! The four sensed distances come from the physics collaborator's shape
//! casts; casts that hit a touch-death hazard count only a quarter of their
//! measured distance, biasing the soul away from hazards more strongly
//! than from plain walls.

use vstd::prelude::*;

use crate::actor::{CFG_MAX, DT_MAX, POS_MAX, TIMER_MAX};
use crate::fixed::{div_fp, fdiv, fmul, lemma_tdiv_bounds, mul_fp, tdiv};
use crate::vec2::{vlen, Vec2};

verus! {

/// Distance under which the player's presence dominates the steering.
pub const COMFORT_DISTANCE: i64 = 256_000;

/// Cap on every sensed free-space distance.
pub const MAX_SPACE: i64 = 256_000;

/// Height above which the downward restoring bias dominates.
pub const MAX_HEIGHT: i64 = 64_000;

/// Cap on the flee distance ratio before cubing, so the cubed priority
/// stays within the fixed-point range; reached only inside a tenth of a
/// unit from the player.
pub const RATIO_CAP: i64 = 100_000;

/// Period of the wander oscillator, close to one full turn in seconds.
pub const WANDER_PERIOD: i64 = 6_283;

/// Notification that one soul was collected; doors consume these.
#[derive(Clone, Copy, Debug, PartialEq, Eq, Structural)]
pub struct CollectedSoulEvent;

/// A collectible soul, either level-authored or dropped by a ghost.
#[derive(Clone, Debug)]
pub struct Soul {
    pub can_move: bool,
    pub move_speed: i64,
    pub accel: i64,
    pub velocity: Vec2,
    pub from_ghost: bool,
}

/// One sensed shape-cast: the distance at which it hit, and whether the hit
/// entity kills on touch.
#[derive(Clone, Copy, Debug, PartialEq, Eq, Structural)]
pub struct SenseCast {
    pub dist: i64,
    pub hazard: bool,
}

/// The four sensed casts around a soul; `None` is a miss within
/// `MAX_SPACE`.
#[derive(Clone, Copy, Debug)]
pub struct SoulSenses {
    pub up: Option<SenseCast>,
    pub down: Option<SenseCast>,
    pub left: Option<SenseCast>,
    pub right: Option<SenseCast>,
}

impl Soul {
    /// Tuning and velocity in the ranges every contract assumes.
    pub open spec fn wf(self) -> bool {
        &&& 0 <= self.move_speed <= CFG_MAX
        &&& 0 <= self.accel <= CFG_MAX
        &&& -CFG_MAX <= self.velocity.x <= CFG_MAX
        &&& -CFG_MAX <= self.velocity.y <= CFG_MAX
    }
}

impl SoulSenses {
    /// Every sensed distance within the probe range.
    pub open spec fn wf(self) -> bool {
        &&& cast_wf(self.up)
        &&& cast_wf(self.down)
        &&& cast_wf(self.left)
        &&& cast_wf(self.right)
    }
}

pub open spec fn cast_wf(c: Option<SenseCast>) -> bool {
    match c {
        Some(s) => 0 <= s.dist <= MAX_SPACE,
        None => true,
    }
}

/// Free space a cast reports: full range on a miss, the hit distance on a
/// wall, a quarter of it on a touch-death hazard.
pub open spec fn spec_space(c: Option<SenseCast>) -> int {
    match c {
        None => MAX_SPACE as int,
        Some(s) => if s.hazard {
            s.dist as int / 4
        } else {
            s.dist as int
        },
    }
}

pub fn space_of(c: Option<SenseCast>) -> (r: i64)
    requires
        cast_wf(c),
    ensures
        r == spec_space(c),
        0 <= r <= MAX_SPACE,
{
    match c {
        None => MAX_SPACE,
        Some(s) => if s.hazard {
            s.dist / 4
        } else {
            s.dist
        },
    }
}

/// The wander oscillator: a unit-amplitude triangle wave of period
/// `WANDER_PERIOD`, rising through zero at phase zero.
pub open spec fn spec_wave(t: int) -> int {
    let x = (t % (WANDER_PERIOD as int)) * 4000 / (WANDER_PERIOD as int);
    if x < 1000 {
        x
    } else if x < 3000 {
        2000 - x
    } else {
        x - 4000
    }
}

pub fn wave(t: i64) -> (r: i64)
    requires
        0 <= t,
    ensures
        r == spec_wave(t as int),
        -1000 <= r <= 1000,
{
    let p = t % WANDER_PERIOD;
    let x = p * 4000 / WANDER_PERIOD;
    proof {
        assert(0 <= p < WANDER_PERIOD);
        assert(p * 4000 <= (WANDER_PERIOD - 1) * 4000 && p * 4000 >= 0) by (nonlinear_arith)
            requires
                0 <= p <= WANDER_PERIOD - 1,
        ;
        assert((p as int * 4000) / (WANDER_PERIOD as int) < 4000) by (nonlinear_arith)
            requires
                p * 4000 <= (WANDER_PERIOD - 1) * 4000 && WANDER_PERIOD >= 1,
        ;
        assert((p as int * 4000) / (WANDER_PERIOD as int) >= 0) by (nonlinear_arith)
            requires
                p * 4000 >= 0 && WANDER_PERIOD >= 1,
        ;
    }
    if x < 1000 {
        x
    } else if x < 3000 {
        2000 - x
    } else {
        x - 4000
    }
}

/// The wander oscillator a quarter period ahead, pairing with `wave` the
/// way a cosine pairs with a sine.
pub fn wave_shifted(t: i64) -> (r: i64)
    requires
        0 <= t <= TIMER_MAX,
    ensures
        r == spec_wave(t + (WANDER_PERIOD as int) / 4),
        -1000 <= r <= 1000,
{
    wave(t + WANDER_PERIOD / 4)
}

/// How urgently a soul flees the player: the cube of
/// `COMFORT_DISTANCE / dist`, the ratio capped at `RATIO_CAP`; a distance
/// of zero counts as the cap (its direction term is zero anyway).
pub open spec fn spec_flee_priority(dist: int) -> int {
    let r = if dist == 0 {
        RATIO_CAP as int
    } else {
        let r0 = fdiv(COMFORT_DISTANCE as int, dist);
        if r0 > RATIO_CAP {
            RATIO_CAP as int
        } else {
            r0
        }
    };
    fmul(fmul(r, r), r)
}

pub fn flee_priority(dist: i64) -> (r: i64)
    requires
        0 <= dist,
    ensures
        r == spec_flee_priority(dist as int),
        0 <= r <= 1_000_000_000,
{
    let ratio: i64 = if dist == 0 {
        RATIO_CAP
    } else {
        proof {
            lemma_tdiv_bounds(COMFORT_DISTANCE * 1000, dist as int);
        }
        let r0 = div_fp(COMFORT_DISTANCE, dist);
        if r0 > RATIO_CAP {
            RATIO_CAP
        } else {
            r0
        }
    };
    proof {
        assert(ratio * ratio <= RATIO_CAP * RATIO_CAP && ratio * ratio >= 0) by (nonlinear_arith)
            requires
                0 <= ratio <= RATIO_CAP,
        ;
        lemma_tdiv_bounds(ratio * ratio, 1000);
        assert((ratio * ratio) / 1000 <= (RATIO_CAP * RATIO_CAP) / 1000) by (nonlinear_arith)
            requires
                0 <= ratio * ratio <= RATIO_CAP * RATIO_CAP,
        ;
    }
    let sq = mul_fp(ratio, ratio);
    proof {
        assert(sq * ratio <= 10_000_000 * RATIO_CAP && sq * ratio >= 0) by (nonlinear_arith)
            requires
                0 <= sq <= 10_000_000 && 0 <= ratio <= RATIO_CAP,
        ;
        lemma_tdiv_bounds(sq * ratio, 1000);
        assert((sq * ratio) / 1000 <= 1_000_000_000) by (nonlinear_arith)
            requires
                0 <= sq * ratio <= 10_000_000 * RATIO_CAP,
        ;
    }
    mul_fp(sq, ratio)
}

/// How urgently a soul centres itself: stronger the more tightly it is
/// boxed in.
pub open spec fn spec_centering_priority(min_space: int) -> int {
    fdiv(MAX_SPACE as int, min_space + 1000)
}

pub fn centering_priority(min_space: i64) -> (r: i64)
    requires
        0 <= min_space <= MAX_SPACE,
    ensures
        r == spec_centering_priority(min_space as int),
        0 <= r <= MAX_SPACE,
{
    proof {
        lemma_tdiv_bounds(MAX_SPACE * 1000, min_space + 1000);
        assert((MAX_SPACE * 1000) / (min_space + 1000) <= MAX_SPACE) by (nonlinear_arith)
            requires
                0 <= min_space,
    ;
    }
    div_fp(MAX_SPACE, min_space + 1000)
}

/// How urgently a soul restores its height: the cube of the free space
/// below it over `MAX_HEIGHT`.
pub open spec fn spec_height_priority(down_space: int) -> int {
    let r = fdiv(down_space, MAX_HEIGHT as int);
    fmul(fmul(r, r), r)
}

pub fn height_priority(down_space: i64) -> (r: i64)
    requires
        0 <= down_space <= MAX_SPACE,
    ensures
        r == spec_height_priority(down_space as int),
        0 <= r <= 64_000,
{
    proof {
        lemma_tdiv_bounds(down_space * 1000, MAX_HEIGHT as int);
        assert((down_space as int * 1000) / (MAX_HEIGHT as int) <= 4000) by (nonlinear_arith)
            requires
                0 <= down_space <= MAX_SPACE,
        ;
    }
    let ratio = div_fp(down_space, MAX_HEIGHT);
    proof {
        assert(ratio * ratio <= 4000 * 4000 && ratio * ratio >= 0) by (nonlinear_arith)
            requires
                0 <= ratio <= 4000,
        ;
        lemma_tdiv_bounds(ratio * ratio, 1000);
        assert((ratio * ratio) / 1000 <= 16_000) by (nonlinear_arith)
            requires
                0 <= ratio * ratio <= 4000 * 4000,
        ;
    }
    let sq = mul_fp(ratio, ratio);
    proof {
        assert(sq * ratio <= 16_000 * 4000 && sq * ratio >= 0) by (nonlinear_arith)
            requires
                0 <= sq <= 16_000 && 0 <= ratio <= 4000,
        ;
        lemma_tdiv_bounds(sq * ratio, 1000);
        assert((sq * ratio) / 1000 <= 64_000) by (nonlinear_arith)
            requires
                0 <= sq * ratio <= 16_000 * 4000,
        ;
    }
    mul_fp(sq, ratio)
}

/// A vector rescaled to unit length, the zero vector staying zero.
pub open spec fn spec_unit(v: Vec2) -> Vec2 {
    if v.x == 0 && v.y == 0 {
        Vec2 { x: 0, y: 0 }
    } else {
        Vec2 { x: tdiv(v.x * 1000, vlen(v)) as i64, y: tdiv(v.y * 1000, vlen(v)) as i64 }
    }
}

/// The steering direction of a flying soul: wander, flee, centering and
/// height-restoring contributions summed and normalised.
pub open spec fn spec_soul_dir(pos: Vec2, player_pos: Vec2, senses: SoulSenses, elapsed: int) -> Vec2 {
    let d = Vec2 { x: (pos.x - player_pos.x) as i64, y: (pos.y - player_pos.y) as i64 };
    let flee_vec = spec_unit(d);
    let fp = spec_flee_priority(vlen(d));
    let up = spec_space(senses.up);
    let down = spec_space(senses.down);
    let left = spec_space(senses.left);
    let right = spec_space(senses.right);
    let min_space = min4(down, up, left, right);
    let centering_vec = spec_unit(Vec2 { x: (right - left) as i64, y: (up - down) as i64 });
    let cp = spec_centering_priority(min_space);
    let hp = spec_height_priority(down);
    let total = Vec2 {
        x: (2 * spec_wave(elapsed) + fmul(flee_vec.x as int, fp) + fmul(centering_vec.x as int, cp)
            + fmul(0, hp)) as i64,
        y: (2 * spec_wave(elapsed + (WANDER_PERIOD as int) / 4) + fmul(flee_vec.y as int, fp)
            + fmul(centering_vec.y as int, cp) + fmul(-1000, hp)) as i64,
    };
    spec_unit(total)
}

/// The smallest of four sensed distances.
pub open spec fn min4(a: int, b: int, c: int, d: int) -> int {
    let m1 = if a < b {
        a
    } else {
        b
    };
    let m2 = if m1 < c {
        m1
    } else {
        c
    };
    if m2 < d {
        m2
    } else {
        d
    }
}

/// A velocity component softly bounced: reflected at half magnitude when
/// the space ahead of it is below one unit.
pub open spec fn bounced(v: int, space_pos: int, space_neg: int) -> int {
    if (space_pos < 1000 && v > 100) || (space_neg < 1000 && v < -100) {
        -fmul(v, 500)
    } else {
        v
    }
}

/// The velocity of a flying soul after one tick: accelerate along the
/// steering direction, clamp to top speed, then soft-bounce off whatever
/// is within one unit.
pub open spec fn spec_soul_velocity(
    soul: Soul,
    pos: Vec2,
    player_pos: Vec2,
    senses: SoulSenses,
    elapsed: int,
    dt: int,
) -> Vec2 {
    let dir = spec_soul_dir(pos, player_pos, senses, elapsed);
    let step = fmul(soul.accel as int, dt);
    let accelerated = Vec2 {
        x: (soul.velocity.x + fmul(dir.x as int, step)) as i64,
        y: (soul.velocity.y + fmul(dir.y as int, step)) as i64,
    };
    let clamped = if vlen(accelerated) <= soul.move_speed {
        accelerated
    } else {
        Vec2 {
            x: tdiv(accelerated.x * soul.move_speed, vlen(accelerated)) as i64,
            y: tdiv(accelerated.y * soul.move_speed, vlen(accelerated)) as i64,
        }
    };
    let up = spec_space(senses.up);
    let down = spec_space(senses.down);
    let left = spec_space(senses.left);
    let right = spec_space(senses.right);
    Vec2 {
        x: bounced(clamped.x as int, right, left) as i64,
        y: bounced(clamped.y as int, up, down) as i64,
    }
}

/// Movement step of a soul.
///
/// An immobile soul only requests the decorative wander translation. A
/// mobile soul without a sensed player does nothing this tick. Otherwise
/// the velocity follows `spec_soul_velocity` and the requested translation
/// is that velocity over the tick.
pub fn soul_movement(
    soul: &mut Soul,
    pos: Vec2,
    player_pos: Option<Vec2>,
    senses: &SoulSenses,
    elapsed: i64,
    dt: i64,
) -> (translation: Option<Vec2>)
    requires
        old(soul).wf(),
        senses.wf(),
        -POS_MAX <= pos.x <= POS_MAX,
        -POS_MAX <= pos.y <= POS_MAX,
        match player_pos {
            Some(p) => -POS_MAX <= p.x <= POS_MAX && -POS_MAX <= p.y <= POS_MAX,
            None => true,
        },
        0 <= elapsed <= TIMER_MAX,
        0 <= dt <= DT_MAX,
    ensures
        final(soul).wf(),
        final(soul).can_move == old(soul).can_move,
        final(soul).move_speed == old(soul).move_speed,
        final(soul).accel == old(soul).accel,
        final(soul).from_ghost == old(soul).from_ghost,
        !old(soul).can_move ==> final(soul).velocity == old(soul).velocity && translation == Some(
            Vec2 {
                x: fmul(dt as int, 2 * spec_wave(elapsed as int)) as i64,
                y: fmul(dt as int, 2 * spec_wave(elapsed + (WANDER_PERIOD as int) / 4)) as i64,
            },
        ),
        old(soul).can_move ==> match player_pos {
            None => final(soul).velocity == old(soul).velocity && translation is None,
            Some(p) => {
                let v = spec_soul_velocity(
                    *old(soul),
                    pos,
                    p,
                    *senses,
                    elapsed as int,
                    dt as int,
                );
                &&& final(soul).velocity == v
                &&& translation == Some(
                    Vec2 {
                        x: fmul(v.x as int, dt as int) as i64,
                        y: fmul(v.y as int, dt as int) as i64,
                    },
                )
            },
        },
{
    if !soul.can_move {
        let wx = wave(elapsed);
        let wy = wave_shifted(elapsed);
        proof {
            assert(dt * (2 * wx) <= DT_MAX * 2000 && dt * (2 * wx) >= -(DT_MAX * 2000))
                by (nonlinear_arith)
                requires
                    0 <= dt <= DT_MAX && -1000 <= wx <= 1000,
            ;
            assert(dt * (2 * wy) <= DT_MAX * 2000 && dt * (2 * wy) >= -(DT_MAX * 2000))
                by (nonlinear_arith)
                requires
                    0 <= dt <= DT_MAX && -1000 <= wy <= 1000,
            ;
        }
        return Some(Vec2 { x: mul_fp(dt, 2 * wx), y: mul_fp(dt, 2 * wy) });
    }
    let p = match player_pos {
        Some(p) => p,
        None => {
            return None;
        },
    };

    let d = pos.minus(p);
    let dist = d.length();
    let flee_vec = d.with_length(1000);
    let fp = flee_priority(dist);

    let up = space_of(senses.up);
    let down = space_of(senses.down);
    let left = space_of(senses.left);
    let right = space_of(senses.right);
    let m1 = if down < up {
        down
    } else {
        up
    };
    let m2 = if m1 < left {
        m1
    } else {
        left
    };
    let min_space = if m2 < right {
        m2
    } else {
        right
    };

    let centering_vec = (Vec2 { x: right - left, y: up - down }).with_length(1000);
    let cp = centering_priority(min_space);
    let hp = height_priority(down);

    let wx = wave(elapsed);
    let wy = wave_shifted(elapsed);

    proof {
        assert(flee_vec.x * fp <= 1000 * 1_000_000_000 && flee_vec.x * fp >= -(1000
            * 1_000_000_000)) by (nonlinear_arith)
            requires
                -1000 <= flee_vec.x <= 1000 && 0 <= fp <= 1_000_000_000,
        ;
        assert(flee_vec.y * fp <= 1000 * 1_000_000_000 && flee_vec.y * fp >= -(1000
            * 1_000_000_000)) by (nonlinear_arith)
            requires
                -1000 <= flee_vec.y <= 1000 && 0 <= fp <= 1_000_000_000,
        ;
        assert(centering_vec.x * cp <= 1000 * MAX_SPACE && centering_vec.x * cp >= -(1000
            * MAX_SPACE)) by (nonlinear_arith)
            requires
                -1000 <= centering_vec.x <= 1000 && 0 <= cp <= MAX_SPACE,
        ;
        assert(centering_vec.y * cp <= 1000 * MAX_SPACE && centering_vec.y * cp >= -(1000
            * MAX_SPACE)) by (nonlinear_arith)
            requires
                -1000 <= centering_vec.y <= 1000 && 0 <= cp <= MAX_SPACE,
        ;
        lemma_tdiv_bounds(flee_vec.x * fp, 1000);
        lemma_tdiv_bounds(flee_vec.y * fp, 1000);
        lemma_tdiv_bounds(centering_vec.x * cp, 1000);
        lemma_tdiv_bounds(centering_vec.y * cp, 1000);
        assert((-1000) * hp >= -(1000 * 64_000) && (-1000) * hp <= 0) by (nonlinear_arith)
            requires
                0 <= hp <= 64_000,
        ;
        lemma_tdiv_bounds((-1000) * hp, 1000);
        assert(fmul(0, hp as int) == 0) by {
            assert(0 * (hp as int) == 0) by (nonlinear_arith);
        }
    }
    let flee_x = mul_fp(flee_vec.x, fp);
    let flee_y = mul_fp(flee_vec.y, fp);
    let cen_x = mul_fp(centering_vec.x, cp);
    let cen_y = mul_fp(centering_vec.y, cp);
    let hgt_y = mul_fp(-1000, hp);

    let total = Vec2 { x: 2 * wx + flee_x + cen_x, y: 2 * wy + flee_y + cen_y + hgt_y };
    let dir = total.with_length(1000);

    proof {
        assert(soul.accel * dt <= CFG_MAX * DT_MAX && soul.accel * dt >= 0) by (nonlinear_arith)
            requires
                0 <= soul.accel <= CFG_MAX && 0 <= dt <= DT_MAX,
        ;
        lemma_tdiv_bounds(soul.accel * dt, 1000);
    }
    let step = mul_fp(soul.accel, dt);
    proof {
        assert(dir.x * step <= 1000 * CFG_MAX && dir.x * step >= -(1000 * CFG_MAX))
            by (nonlinear_arith)
            requires
                -1000 <= dir.x <= 1000 && 0 <= step <= CFG_MAX,
        ;
        assert(dir.y * step <= 1000 * CFG_MAX && dir.y * step >= -(1000 * CFG_MAX))
            by (nonlinear_arith)
            requires
                -1000 <= dir.y <= 1000 && 0 <= step <= CFG_MAX,
        ;
        lemma_tdiv_bounds(dir.x * step, 1000);
        lemma_tdiv_bounds(dir.y * step, 1000);
    }
    let accelerated = Vec2 {
        x: soul.velocity.x + mul_fp(dir.x, step),
        y: soul.velocity.y + mul_fp(dir.y, step),
    };
    let clamped = accelerated.clamp_length(soul.move_speed);

    proof {
        lemma_tdiv_bounds(clamped.x * 500, 1000);
        lemma_tdiv_bounds(clamped.y * 500, 1000);
        assert(clamped.x * 500 <= CFG_MAX * 500 && clamped.x * 500 >= -(CFG_MAX * 500))
            by (nonlinear_arith)
            requires
                -CFG_MAX <= clamped.x <= CFG_MAX,
        ;
        assert(clamped.y * 500 <= CFG_MAX * 500 && clamped.y * 500 >= -(CFG_MAX * 500))
            by (nonlinear_arith)
            requires
                -CFG_MAX <= clamped.y <= CFG_MAX,
        ;
    }
    let vy = if (up < 1000 && clamped.y > 100) || (down < 1000 && clamped.y < -100) {
        -mul_fp(clamped.y, 500)
    } else {
        clamped.y
    };
    let vx = if (right < 1000 && clamped.x > 100) || (left < 1000 && clamped.x < -100) {
        -mul_fp(clamped.x, 500)
    } else {
        clamped.x
    };
    soul.velocity = Vec2 { x: vx, y: vy };

    proof {
        assert(vx * dt <= CFG_MAX * DT_MAX && vx * dt >= -(CFG_MAX * DT_MAX)) by (nonlinear_arith)
            requires
                -CFG_MAX <= vx <= CFG_MAX && 0 <= dt <= DT_MAX,
        ;
        assert(vy * dt <= CFG_MAX * DT_MAX && vy * dt >= -(CFG_MAX * DT_MAX)) by (nonlinear_arith)
            requires
                -CFG_MAX <= vy <= CFG_MAX && 0 <= dt <= DT_MAX,
        ;
        lemma_tdiv_bounds(vx * dt, 1000);
        lemma_tdiv_bounds(vy * dt, 1000);
    }
    Some(Vec2 { x: mul_fp(vx, dt), y: mul_fp(vy, dt) })
}

/// How many of the pickup notifications are soul pickups.
pub open spec fn soul_pickup_count(events: Seq<crate::pickup::PickupEvent>) -> nat
    decreases events.len(),
{
    if events.len() == 0 {
        0
    } else {
        soul_pickup_count(events.drop_last()) + if events.last().pickup_type
            == crate::pickup::PickupType::Soul {
            1nat
        } else {
            0nat
        }
    }
}

/// Turn this tick's pickup notifications into collected-soul
/// notifications, one per soul-typed pickup.
pub fn soul_pickups(events: &Vec<crate::pickup::PickupEvent>) -> (collected: Vec<
    CollectedSoulEvent,
>)
    ensures
        collected.len() == soul_pickup_count(events@),
{
    let mut collected: Vec<CollectedSoulEvent> = Vec::new();
    let n = events.len();
    let mut i: usize = 0;
    while i < n
        invariant
            i <= n,
            n == events.len(),
            collected.len() == soul_pickup_count(events@.take(i as int)),
        decreases n - i,
    {
        let ghost prefix = events@.take(i as int);
        match events[i].pickup_type {
            crate::pickup::PickupType::Soul => {
                collected.push(CollectedSoulEvent);
            },
        }
        i = i + 1;
        proof {
            assert(events@.take(i as int).drop_last() =~= prefix);
            assert(events@.take(i as int).last() == events@[i - 1]);
        }
    }
    proof {
        assert(events@.take(n as int) =~= events@);
    }
    collected
}

} // verus!
