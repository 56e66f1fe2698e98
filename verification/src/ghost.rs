//! Ghost patrol and death.
//!
//! A ghost walks back and forth, bouncing off sensed walls: its single
//! `move_left` flag flips whenever it walks into a wall on that side, and
//! the flag is turned into full-strength movement intent for the shared
//! locomotion integrator. When a ghost is scythed it is replaced by a soul
//! that escapes away from the origin of the blow.

use vstd::prelude::*;

use crate::actor::{Actor, ActorStatus, Scythable, POS_MAX};
use crate::fixed::tdiv;
use crate::soul::Soul;
use crate::vec2::{vlen, Vec2};

verus! {

/// Speed the escaping soul is launched at.
pub const ESCAPE_SPEED: i64 = 160_000;

/// A patrolling ghost: the single bit of AI state.
#[derive(Clone, Copy, Debug, PartialEq, Eq, Structural)]
pub struct GhostState {
    pub move_left: bool,
}

/// The patrol direction after one tick of wall sensing: walking left into a
/// left wall turns the ghost right, and symmetrically.
pub open spec fn patrol_after(g: GhostState, status: ActorStatus) -> bool {
    if g.move_left && status.left_wall {
        false
    } else if !g.move_left && status.right_wall {
        true
    } else {
        g.move_left
    }
}

/// Patrol step: flip on wall contact and write the movement intent.
///
/// The tick on which a wall is sensed is the tick the intent flips: a ghost
/// walking left (intent at full negative strength) senses a left wall and
/// leaves with intent at full positive strength.
pub fn ghost_movement(ghost: &mut GhostState, actor: &mut Actor, status: &ActorStatus)
    ensures
        final(ghost).move_left == patrol_after(*old(ghost), *status),
        final(actor).move_input == if final(ghost).move_left {
            -1000int
        } else {
            1000int
        },
        *final(actor) == (Actor { move_input: final(actor).move_input, ..*old(actor) }),
        old(actor).wf() ==> final(actor).wf(),
{
    if ghost.move_left && status.left_wall {
        ghost.move_left = false;
    } else if !ghost.move_left && status.right_wall {
        ghost.move_left = true;
    }
    actor.move_input = if ghost.move_left {
        -1000
    } else {
        1000
    };
}

/// The velocity a dropped soul escapes with: away from the origin of the
/// blow at `ESCAPE_SPEED`, straight up at modest speed when no origin is
/// known, zero when the blow came from exactly the ghost's position.
pub open spec fn escape_velocity(pos: Vec2, hit_from: Option<Vec2>) -> Vec2 {
    match hit_from {
        Some(h) => {
            let d = Vec2 { x: (pos.x - h.x) as i64, y: (pos.y - h.y) as i64 };
            if d.x == 0 && d.y == 0 {
                Vec2 { x: 0, y: 0 }
            } else {
                Vec2 {
                    x: tdiv(d.x * ESCAPE_SPEED, vlen(d)) as i64,
                    y: tdiv(d.y * ESCAPE_SPEED, vlen(d)) as i64,
                }
            }
        },
        None => Vec2 { x: 0, y: 60_000 },
    }
}

/// Death step: a scythed ghost despawns and drops a mobile soul whose
/// velocity carries it away from the blow; an unscythed ghost drops
/// nothing.
pub fn ghost_death(pos: Vec2, scythable: &Scythable) -> (drop: Option<Soul>)
    requires
        -POS_MAX <= pos.x <= POS_MAX,
        -POS_MAX <= pos.y <= POS_MAX,
        match scythable.hit_from {
            Some(h) => -POS_MAX <= h.x <= POS_MAX && -POS_MAX <= h.y <= POS_MAX,
            None => true,
        },
    ensures
        scythable.scythed <==> drop is Some,
        scythable.scythed ==> drop == Some(
            Soul {
                can_move: true,
                move_speed: ESCAPE_SPEED,
                accel: 80_000,
                velocity: escape_velocity(pos, scythable.hit_from),
                from_ghost: true,
            },
        ),
        match drop {
            Some(s) => s.wf(),
            None => true,
        },
{
    if !scythable.scythed {
        return None;
    }
    let velocity = match scythable.hit_from {
        Some(h) => pos.minus(h).with_length(ESCAPE_SPEED),
        None => Vec2 { x: 0, y: 60_000 },
    };
    Some(
        Soul {
            can_move: true,
            move_speed: ESCAPE_SPEED,
            accel: 80_000,
            velocity,
            from_ghost: true,
        },
    )
}

} // verus!
