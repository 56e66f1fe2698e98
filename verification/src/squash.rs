//! Squash-and-stretch scale animation.
//!
//! A `Squashy` runs a three-state scale animation (squash, stretch, restore)
//! driven purely by accumulated time; transitions are triggered by actor
//! events (launching stretches, landing squashes) or by a state's timeout.
//! While no state is active the visual scale is the identity — that is the
//! type's invariant, visible in `squash_animation` returning `None`.

use vstd::prelude::*;

use crate::actor::{ActorEvent, ActorStatus, CFG_MAX, DT_MAX, TIMER_MAX};
use crate::fixed::{add_capped, div_fp, div_trunc, fdiv, fmul, lemma_tdiv_bounds, mul_fp, tdiv};
use crate::vec2::Vec2;

verus! {

/// Largest accepted scale component: a factor of one thousand.
pub const SCALE_MAX: i64 = 1_000_000;

/// The three phases of the scale animation.
#[derive(Clone, Copy, Debug, PartialEq, Eq, Structural)]
pub enum SquashStretchState {
    Restore,
    Squash,
    Stretch,
}

/// Scale-animation state attached to a presentation-linked actor.
#[derive(Clone, Debug)]
pub struct Squashy {
    pub base_scale: Vec2,
    pub restore_time: i64,
    pub squash_scale: Vec2,
    pub squash_time: i64,
    pub stretch_scale: Vec2,
    pub stretch_time: i64,
    pub state: Option<SquashStretchState>,
    pub state_time: i64,
    pub from_pos: Vec2,
}

/// How long `sq` stays in `st` before advancing.
pub open spec fn state_max_time(sq: Squashy, st: SquashStretchState) -> int {
    match st {
        SquashStretchState::Restore => sq.restore_time as int,
        SquashStretchState::Squash => sq.squash_time as int,
        SquashStretchState::Stretch => sq.stretch_time as int,
    }
}

/// The scale a state interpolates toward; no active state means identity.
pub open spec fn state_end_pos(sq: Squashy, state: Option<SquashStretchState>) -> Vec2 {
    match state {
        Some(SquashStretchState::Restore) => Vec2 { x: 1000, y: 1000 },
        Some(SquashStretchState::Squash) => sq.squash_scale,
        Some(SquashStretchState::Stretch) => sq.stretch_scale,
        None => Vec2 { x: 1000, y: 1000 },
    }
}

/// The state entered when the current one times out: squash and stretch
/// relax through restore, restore ends the animation.
pub open spec fn state_after(st: SquashStretchState) -> Option<SquashStretchState> {
    match st {
        SquashStretchState::Restore => None,
        SquashStretchState::Squash => Some(SquashStretchState::Restore),
        SquashStretchState::Stretch => Some(SquashStretchState::Restore),
    }
}

/// `change_state` as a value transformation, for contracts that fold a
/// whole event queue.
pub open spec fn changed_state(sq: Squashy, next: Option<SquashStretchState>) -> Squashy {
    Squashy {
        from_pos: state_end_pos(sq, sq.state),
        state: next,
        state_time: 0,
        ..sq
    }
}

/// The squash transition an actor event triggers, if any.
pub open spec fn squash_trigger(e: ActorEvent) -> Option<SquashStretchState> {
    match e {
        ActorEvent::Launched => Some(SquashStretchState::Stretch),
        ActorEvent::Landed => Some(SquashStretchState::Squash),
        _ => None,
    }
}

/// The net effect of reacting to a queue of actor events in order.
pub open spec fn applied_squash_events(sq: Squashy, events: Seq<ActorEvent>) -> Squashy
    decreases events.len(),
{
    if events.len() == 0 {
        sq
    } else {
        let prev = applied_squash_events(sq, events.drop_last());
        match squash_trigger(events.last()) {
            Some(st) => changed_state(prev, Some(st)),
            None => prev,
        }
    }
}

impl Squashy {
    /// Scales and durations in the ranges every contract assumes; an active
    /// state's elapsed time never exceeds that state's duration.
    pub open spec fn wf(self) -> bool {
        &&& 1 <= self.restore_time <= CFG_MAX
        &&& 1 <= self.squash_time <= CFG_MAX
        &&& 1 <= self.stretch_time <= CFG_MAX
        &&& -SCALE_MAX <= self.base_scale.x <= SCALE_MAX
        &&& -SCALE_MAX <= self.base_scale.y <= SCALE_MAX
        &&& -SCALE_MAX <= self.squash_scale.x <= SCALE_MAX
        &&& -SCALE_MAX <= self.squash_scale.y <= SCALE_MAX
        &&& -SCALE_MAX <= self.stretch_scale.x <= SCALE_MAX
        &&& -SCALE_MAX <= self.stretch_scale.y <= SCALE_MAX
        &&& -SCALE_MAX <= self.from_pos.x <= SCALE_MAX
        &&& -SCALE_MAX <= self.from_pos.y <= SCALE_MAX
        &&& 0 <= self.state_time <= TIMER_MAX
        &&& match self.state {
            Some(st) => self.state_time <= state_max_time(self, st),
            None => true,
        }
    }

    /// Enter `next`, interpolating from wherever the current state was
    /// headed.
    pub fn change_state(&mut self, next: Option<SquashStretchState>)
        ensures
            *final(self) == changed_state(*old(self), next),
            old(self).wf() ==> final(self).wf(),
    {
        self.from_pos = self.get_current_state_end_pos();
        self.state = next;
        self.state_time = 0;
    }

    /// How long the current state lasts; without one, effectively forever.
    fn get_current_state_max_time(&self) -> (r: i64)
        ensures
            r == match self.state {
                Some(st) => state_max_time(*self, st),
                None => i64::MAX as int,
            },
    {
        match self.state {
            Some(SquashStretchState::Restore) => self.restore_time,
            Some(SquashStretchState::Squash) => self.squash_time,
            Some(SquashStretchState::Stretch) => self.stretch_time,
            None => i64::MAX,
        }
    }

    /// The scale the current state interpolates toward.
    fn get_current_state_end_pos(&self) -> (r: Vec2)
        ensures
            r == state_end_pos(*self, self.state),
    {
        match self.state {
            Some(SquashStretchState::Restore) => Vec2 { x: 1000, y: 1000 },
            Some(SquashStretchState::Squash) => self.squash_scale,
            Some(SquashStretchState::Stretch) => self.stretch_scale,
            None => Vec2 { x: 1000, y: 1000 },
        }
    }
}

/// Timeout step: accumulate the state's elapsed time and advance the state
/// machine when the duration is exceeded.
pub fn squash_states(sq: &mut Squashy, dt: i64)
    requires
        old(sq).wf(),
        0 <= dt <= DT_MAX,
    ensures
        final(sq).wf(),
        match old(sq).state {
            None => *final(sq) == *old(sq),
            Some(st) => {
                if old(sq).state_time + dt > state_max_time(*old(sq), st) {
                    *final(sq) == changed_state(*old(sq), state_after(st))
                } else {
                    *final(sq) == (Squashy {
                        state_time: (old(sq).state_time + dt) as i64,
                        ..*old(sq)
                    })
                }
            },
        },
{
    match sq.state {
        Some(st) => {
            sq.state_time = add_capped(sq.state_time, dt, TIMER_MAX);
            if sq.state_time > sq.get_current_state_max_time() {
                match st {
                    SquashStretchState::Restore => sq.change_state(None),
                    SquashStretchState::Squash => sq.change_state(
                        Some(SquashStretchState::Restore),
                    ),
                    SquashStretchState::Stretch => sq.change_state(
                        Some(SquashStretchState::Restore),
                    ),
                }
                sq.state_time = 0;
            }
        },
        None => {},
    }
}

/// Linear interpolation from `a` to `b` by fixed-point fraction `t`.
pub open spec fn lerp(a: int, b: int, t: int) -> int {
    a + fmul(b - a, t)
}

/// What the animation displays this tick: `None` while no state is active
/// (the identity scale — the type's invariant), otherwise the interpolated
/// custom size together with the anchor offset that keeps the actor's feet
/// planted.
pub fn squash_animation(sq: &Squashy) -> (r: Option<(Vec2, Vec2)>)
    requires
        sq.wf(),
    ensures
        sq.state is None <==> r is None,
        match sq.state {
            None => r is None,
            Some(st) => {
                let t = fdiv(sq.state_time as int, state_max_time(*sq, st));
                let sx = lerp(sq.from_pos.x as int, state_end_pos(*sq, sq.state).x as int, t);
                let sy = lerp(sq.from_pos.y as int, state_end_pos(*sq, sq.state).y as int, t);
                r == Some(
                    (
                        Vec2 {
                            x: fmul(sx, sq.base_scale.x as int) as i64,
                            y: fmul(sy, sq.base_scale.y as int) as i64,
                        },
                        Vec2 { x: 0, y: (-tdiv(sy - 1000, 2)) as i64 },
                    ),
                )
            },
        },
{
    match sq.state {
        Some(st) => {
            let max_time = sq.get_current_state_max_time();
            let t = div_fp(sq.state_time, max_time);
            proof {
                lemma_tdiv_bounds(sq.state_time * 1000, max_time as int);
                lemma_fraction_at_most_unit(sq.state_time as int, max_time as int);
            }
            let end = sq.get_current_state_end_pos();
            proof {
                assert((end.x - sq.from_pos.x) * t <= 2 * SCALE_MAX * 1000 && (end.x
                    - sq.from_pos.x) * t >= -(2 * SCALE_MAX * 1000)) by (nonlinear_arith)
                    requires
                        -2 * SCALE_MAX <= end.x - sq.from_pos.x <= 2 * SCALE_MAX && 0 <= t
                            <= 1000,
                ;
                assert((end.y - sq.from_pos.y) * t <= 2 * SCALE_MAX * 1000 && (end.y
                    - sq.from_pos.y) * t >= -(2 * SCALE_MAX * 1000)) by (nonlinear_arith)
                    requires
                        -2 * SCALE_MAX <= end.y - sq.from_pos.y <= 2 * SCALE_MAX && 0 <= t
                            <= 1000,
                ;
                lemma_tdiv_bounds((end.x - sq.from_pos.x) * t, 1000);
                lemma_tdiv_bounds((end.y - sq.from_pos.y) * t, 1000);
            }
            let sx = sq.from_pos.x + mul_fp(end.x - sq.from_pos.x, t);
            let sy = sq.from_pos.y + mul_fp(end.y - sq.from_pos.y, t);
            proof {
                assert(sx * sq.base_scale.x <= 3 * SCALE_MAX * SCALE_MAX && sx * sq.base_scale.x
                    >= -(3 * SCALE_MAX * SCALE_MAX)) by (nonlinear_arith)
                    requires
                        -3 * SCALE_MAX <= sx <= 3 * SCALE_MAX && -SCALE_MAX <= sq.base_scale.x
                            <= SCALE_MAX,
                ;
                assert(sy * sq.base_scale.y <= 3 * SCALE_MAX * SCALE_MAX && sy * sq.base_scale.y
                    >= -(3 * SCALE_MAX * SCALE_MAX)) by (nonlinear_arith)
                    requires
                        -3 * SCALE_MAX <= sy <= 3 * SCALE_MAX && -SCALE_MAX <= sq.base_scale.y
                            <= SCALE_MAX,
                ;
            }
            let size = Vec2 { x: mul_fp(sx, sq.base_scale.x), y: mul_fp(sy, sq.base_scale.y) };
            let y_offset = div_trunc(sy - 1000, 2);
            Some((size, Vec2 { x: 0, y: -y_offset }))
        },
        None => None,
    }
}

/// An elapsed time within the duration gives an interpolation fraction
/// within one.
proof fn lemma_fraction_at_most_unit(s: int, m: int)
    requires
        0 <= s <= m,
        m >= 1,
    ensures
        0 <= fdiv(s, m) <= 1000,
{
    assert(0 <= s * 1000 <= m * 1000) by (nonlinear_arith)
        requires
            0 <= s <= m,
    ;
    assert((s * 1000) / m <= (m * 1000) / m) by (nonlinear_arith)
        requires
            s * 1000 <= m * 1000 && m >= 1,
    ;
    assert((m * 1000) / m == 1000) by (nonlinear_arith)
        requires
            m >= 1,
    ;
    assert((s * 1000) / m >= 0) by (nonlinear_arith)
        requires
            s * 1000 >= 0 && m >= 1,
    ;
}

/// React to this tick's actor events in order: launching stretches, landing
/// squashes, everything else leaves the animation alone.
pub fn actor_squash_events(status: &ActorStatus, sq: &mut Squashy)
    ensures
        *final(sq) == applied_squash_events(*old(sq), status.events@),
        old(sq).wf() ==> final(sq).wf(),
{
    let n = status.events.len();
    let mut i: usize = 0;
    while i < n
        invariant
            i <= n,
            n == status.events.len(),
            *sq == applied_squash_events(*old(sq), status.events@.take(i as int)),
            old(sq).wf() ==> sq.wf(),
        decreases n - i,
    {
        let ghost prefix = status.events@.take(i as int);
        match status.events[i] {
            ActorEvent::Launched => sq.change_state(Some(SquashStretchState::Stretch)),
            ActorEvent::Landed => sq.change_state(Some(SquashStretchState::Squash)),
            _ => {},
        }
        i = i + 1;
        proof {
            assert(status.events@.take(i as int).drop_last() =~= prefix);
            assert(status.events@.take(i as int).last() == status.events@[i - 1]);
        }
    }
    proof {
        assert(status.events@.take(n as int) =~= status.events@);
    }
}

} // verus!
