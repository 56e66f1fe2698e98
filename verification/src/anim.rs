//! Animation row selection.
//!
//! Maps an actor's state to the sprite-sheet row the presentation layer
//! should play: the attack row with explicit progress while an attack
//! runs, run or idle on the ground by horizontal speed, jump or fall in
//! the air by vertical speed; the sprite mirrors the tracked facing.

use vstd::prelude::*;

use crate::actor::{Actor, ActorStatus};
use crate::fixed::{div_fp, fdiv, lemma_tdiv_bounds};

verus! {

/// Horizontal speed above which a grounded actor runs rather than idles.
pub const RUN_SPEED: i64 = 20_000;

/// Vertical speed under which an airborne actor counts as falling.
pub const FALL_SPEED: i64 = -10_000;

/// The sprite-sheet rows of one actor's animations.
#[derive(Clone, Copy, Debug, PartialEq, Eq, Structural)]
pub struct ActorAnimationStates {
    pub idle_row: usize,
    pub run_row: usize,
    pub jump_row: usize,
    pub fall_row: usize,
    pub attack_row: usize,
}

/// What the sprite player is told this tick: the row, an explicit
/// progress override while attacking (the attack's fraction elapsed), and
/// whether to mirror the sprite.
#[derive(Clone, Copy, Debug, PartialEq, Eq, Structural)]
pub struct AnimationSelection {
    pub row: usize,
    pub progress: Option<i64>,
    pub flip_x: bool,
}

/// The row an actor's state selects.
pub open spec fn selected_row(a: Actor, s: ActorStatus, rows: ActorAnimationStates) -> usize {
    if s.attack_direction is Some {
        rows.attack_row
    } else if s.grounded {
        if s.velocity.x > RUN_SPEED || s.velocity.x < -RUN_SPEED {
            rows.run_row
        } else {
            rows.idle_row
        }
    } else {
        if s.velocity.y > FALL_SPEED {
            rows.jump_row
        } else {
            rows.fall_row
        }
    }
}

/// Animation step: select the row, the attack progress and the mirroring
/// for this tick.
pub fn actor_animations(actor: &Actor, status: &ActorStatus, rows: &ActorAnimationStates) -> (r:
    AnimationSelection)
    requires
        actor.wf(),
        status.wf(),
    ensures
        r.row == selected_row(*actor, *status, *rows),
        r.flip_x == status.facing_left,
        r.progress == match status.attack_direction {
            Some(d) => Some(fdiv(status.attack_timer as int, actor.attack_time as int) as i64),
            None => None::<i64>,
        },
{
    if status.attack_direction.is_some() {
        proof {
            lemma_tdiv_bounds(status.attack_timer * 1000, actor.attack_time as int);
        }
        let t = div_fp(status.attack_timer, actor.attack_time);
        AnimationSelection { row: rows.attack_row, progress: Some(t), flip_x: status.facing_left }
    } else if status.grounded {
        let row = if status.velocity.x > RUN_SPEED || status.velocity.x < -RUN_SPEED {
            rows.run_row
        } else {
            rows.idle_row
        };
        AnimationSelection { row, progress: None, flip_x: status.facing_left }
    } else {
        let row = if status.velocity.y > FALL_SPEED {
            rows.jump_row
        } else {
            rows.fall_row
        };
        AnimationSelection { row, progress: None, flip_x: status.facing_left }
    }
}

} // verus!
