//! Spawn-time configuration.
//!
//! Level-authoring data arrives as optional typed fields; applying a patch
//! overrides the matching tuning parameters and leaves the rest at their
//! defaults. Values are clamped into the ranges the contracts assume, and
//! field names the schema does not know are carried in the `unknown`
//! bucket for the caller to log — never an error.

use vstd::prelude::*;

use crate::actor::{Actor, CFG_MAX};
use crate::door::Door;
use crate::fixed::{clamp_fp, sclamp};
use crate::soul::Soul;

verus! {

/// Optional overrides for an actor's tuning, plus the unrecognised field
/// names of the authoring data.
#[derive(Clone, Debug)]
pub struct ActorPatch {
    pub move_speed: Option<i64>,
    pub drag: Option<i64>,
    pub accel: Option<i64>,
    pub deccel: Option<i64>,
    pub up_gravity: Option<i64>,
    pub down_gravity: Option<i64>,
    pub jump_speed: Option<i64>,
    pub jump_time: Option<i64>,
    pub attack_time: Option<i64>,
    pub attack_range: Option<i64>,
    pub unknown: Vec<String>,
}

impl ActorPatch {
    /// A patch that overrides nothing.
    pub fn empty() -> (r: ActorPatch)
        ensures
            r.move_speed is None,
            r.drag is None,
            r.accel is None,
            r.deccel is None,
            r.up_gravity is None,
            r.down_gravity is None,
            r.jump_speed is None,
            r.jump_time is None,
            r.attack_time is None,
            r.attack_range is None,
            r.unknown@ == Seq::<String>::empty(),
    {
        ActorPatch {
            move_speed: None,
            drag: None,
            accel: None,
            deccel: None,
            up_gravity: None,
            down_gravity: None,
            jump_speed: None,
            jump_time: None,
            attack_time: None,
            attack_range: None,
            unknown: Vec::new(),
        }
    }
}

/// A patched tuning value: the override clamped into `[lo, hi]`, or the
/// base value without one.
pub open spec fn patched_field(base: int, over: Option<i64>, lo: int, hi: int) -> int {
    match over {
        Some(v) => sclamp(v as int, lo, hi),
        None => base,
    }
}

fn apply_field(base: i64, over: Option<i64>, lo: i64, hi: i64) -> (r: i64)
    requires
        lo <= hi,
        lo <= base <= hi,
    ensures
        r == patched_field(base as int, over, lo as int, hi as int),
        lo <= r <= hi,
{
    match over {
        Some(v) => clamp_fp(v, lo, hi),
        None => base,
    }
}

impl Actor {
    /// Apply spawn-time overrides to this tuning; intent fields are left
    /// untouched and the result stays within the ranges contracts assume.
    pub fn patched(&self, patch: &ActorPatch) -> (r: Actor)
        requires
            self.wf(),
        ensures
            r.wf(),
            r.move_speed == patched_field(self.move_speed as int, patch.move_speed, 0, CFG_MAX as int),
            r.drag == patched_field(self.drag as int, patch.drag, 0, 1000),
            r.accel == patched_field(self.accel as int, patch.accel, 0, CFG_MAX as int),
            r.deccel == patched_field(self.deccel as int, patch.deccel, 0, CFG_MAX as int),
            r.up_gravity == patched_field(self.up_gravity as int, patch.up_gravity, 0, CFG_MAX as int),
            r.down_gravity == patched_field(
                self.down_gravity as int,
                patch.down_gravity,
                0,
                CFG_MAX as int,
            ),
            r.jump_speed == patched_field(self.jump_speed as int, patch.jump_speed, 0, CFG_MAX as int),
            r.jump_time == patched_field(self.jump_time as int, patch.jump_time, 0, CFG_MAX as int),
            r.attack_time == patched_field(
                self.attack_time as int,
                patch.attack_time,
                1,
                CFG_MAX as int,
            ),
            r.attack_range == patched_field(
                self.attack_range as int,
                patch.attack_range,
                0,
                CFG_MAX as int,
            ),
            r.move_input == self.move_input,
            r.jump_input == self.jump_input,
            r.can_jump == self.can_jump,
            r.attack_input == self.attack_input,
            r.can_attack == self.can_attack,
    {
        Actor {
            move_speed: apply_field(self.move_speed, patch.move_speed, 0, CFG_MAX),
            drag: apply_field(self.drag, patch.drag, 0, 1000),
            accel: apply_field(self.accel, patch.accel, 0, CFG_MAX),
            deccel: apply_field(self.deccel, patch.deccel, 0, CFG_MAX),
            up_gravity: apply_field(self.up_gravity, patch.up_gravity, 0, CFG_MAX),
            down_gravity: apply_field(self.down_gravity, patch.down_gravity, 0, CFG_MAX),
            jump_speed: apply_field(self.jump_speed, patch.jump_speed, 0, CFG_MAX),
            jump_time: apply_field(self.jump_time, patch.jump_time, 0, CFG_MAX),
            attack_time: apply_field(self.attack_time, patch.attack_time, 1, CFG_MAX),
            attack_range: apply_field(self.attack_range, patch.attack_range, 0, CFG_MAX),
            move_input: self.move_input,
            jump_input: self.jump_input,
            can_jump: self.can_jump,
            attack_input: self.attack_input,
            can_attack: self.can_attack,
        }
    }
}

/// Optional overrides for a soul's tuning, plus the unrecognised field
/// names.
#[derive(Clone, Debug)]
pub struct SoulPatch {
    pub can_move: Option<bool>,
    pub move_speed: Option<i64>,
    pub accel: Option<i64>,
    pub unknown: Vec<String>,
}

impl Soul {
    /// The tuning a level-authored soul spawns with: immobile and slow
    /// until its fields say otherwise, at rest, not ghost-dropped.
    pub fn authored(patch: &SoulPatch) -> (r: Soul)
        ensures
            r.wf(),
            r.can_move == match patch.can_move {
                Some(b) => b,
                None => false,
            },
            r.move_speed == patched_field(120_000, patch.move_speed, 0, CFG_MAX as int),
            r.accel == patched_field(40_000, patch.accel, 0, CFG_MAX as int),
            r.velocity == (crate::vec2::Vec2 { x: 0, y: 0 }),
            !r.from_ghost,
    {
        Soul {
            can_move: match patch.can_move {
                Some(b) => b,
                None => false,
            },
            move_speed: apply_field(120_000, patch.move_speed, 0, CFG_MAX),
            accel: apply_field(40_000, patch.accel, 0, CFG_MAX),
            velocity: crate::vec2::Vec2 { x: 0, y: 0 },
            from_ghost: false,
        }
    }
}

/// Optional overrides for a door, plus the unrecognised field names.
#[derive(Clone, Debug)]
pub struct DoorPatch {
    pub next_level: Option<usize>,
    pub required_souls: Option<usize>,
    pub unknown: Vec<String>,
}

impl Door {
    /// The door a level authors: defaults of zero, overridden by its
    /// fields.
    pub fn authored(patch: &DoorPatch) -> (r: Door)
        ensures
            r.next_level == match patch.next_level {
                Some(v) => v as int,
                None => 0int,
            },
            r.required_souls == match patch.required_souls {
                Some(v) => v as int,
                None => 0int,
            },
    {
        Door {
            next_level: match patch.next_level {
                Some(v) => v,
                None => 0,
            },
            required_souls: match patch.required_souls {
                Some(v) => v,
                None => 0,
            },
        }
    }
}

} // verus!
