//! Player intent.
//!
//! Translates the raw device input the collaborator polled into the
//! actor's per-tick intent: movement strength straight through, jump
//! permission with a grace window after leaving the ground, and an attack
//! direction along the current facing — a new attack only when none is
//! already running.

use vstd::prelude::*;

use crate::actor::{Actor, ActorStatus};
use crate::vec2::Vec2;

verus! {

/// Tag on the player entity.
#[derive(Clone, Copy, Debug, PartialEq, Eq, Structural)]
pub struct Player;

/// Tag on entities that kill the player on touch.
#[derive(Clone, Copy, Debug, PartialEq, Eq, Structural)]
pub struct TouchDeath;

/// Whether a jump is permitted: on the ground, or within the grace window
/// after leaving it.
pub open spec fn jump_permitted(a: Actor, s: ActorStatus) -> bool {
    s.grounded || s.air_timer < a.jump_time
}

/// The attack intent this tick's input produces: a unit direction along
/// the facing, only when the attack button is down and no attack is
/// already running.
pub open spec fn attack_intent(s: ActorStatus, attack: bool) -> Option<Vec2> {
    if attack && s.attack_direction is None {
        if s.facing_left {
            Some(Vec2 { x: -1000i64, y: 0i64 })
        } else {
            Some(Vec2 { x: 1000i64, y: 0i64 })
        }
    } else {
        None
    }
}

/// Input step: write the player's intent for this tick.
pub fn player_inputs(actor: &mut Actor, status: &ActorStatus, move_x: i64, jump: bool, attack: bool)
    requires
        -1000 <= move_x <= 1000,
    ensures
        final(actor).move_input == move_x,
        final(actor).jump_input == jump,
        final(actor).can_jump == jump_permitted(*old(actor), *status),
        final(actor).attack_input == attack_intent(*status, attack),
        *final(actor) == (Actor {
            move_input: move_x,
            jump_input: jump,
            can_jump: final(actor).can_jump,
            attack_input: final(actor).attack_input,
            ..*old(actor)
        }),
        old(actor).wf() ==> final(actor).wf(),
{
    actor.jump_input = jump;
    actor.can_jump = status.grounded || status.air_timer < actor.jump_time;
    actor.attack_input = if attack && status.attack_direction.is_none() {
        if status.facing_left {
            Some(Vec2 { x: -1000, y: 0 })
        } else {
            Some(Vec2 { x: 1000, y: 0 })
        }
    } else {
        None
    };
    actor.move_input = move_x;
}

} // verus!
