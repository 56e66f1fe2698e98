use reaper_core::actor::{Actor, ActorEvent, ActorStatus};
use reaper_core::anim::{actor_animations, ActorAnimationStates};
use reaper_core::config::{ActorPatch, DoorPatch, SoulPatch};
use reaper_core::door::Door;
use reaper_core::player::player_inputs;
use reaper_core::soul::Soul;
use reaper_core::squash::{actor_squash_events, squash_animation, squash_states, SquashStretchState, Squashy};
use reaper_core::vec2::Vec2;

fn squashy() -> Squashy {
    Squashy {
        base_scale: Vec2 { x: 1000, y: 1000 },
        restore_time: 100,
        squash_scale: Vec2 { x: 1200, y: 800 },
        squash_time: 100,
        stretch_scale: Vec2 { x: 800, y: 1200 },
        stretch_time: 100,
        state: None,
        state_time: 0,
        from_pos: Vec2 { x: 1000, y: 1000 },
    }
}

fn rows() -> ActorAnimationStates {
    ActorAnimationStates { idle_row: 0, run_row: 1, jump_row: 2, fall_row: 3, attack_row: 4 }
}

#[test]
fn landing_squashes_and_launching_stretches() {
    let mut sq = squashy();
    let mut status = ActorStatus::new();
    status.events.push(ActorEvent::Landed);
    actor_squash_events(&status, &mut sq);
    assert_eq!(sq.state, Some(SquashStretchState::Squash));
    assert_eq!(sq.state_time, 0);

    status.events.clear();
    status.events.push(ActorEvent::Launched);
    actor_squash_events(&status, &mut sq);
    assert_eq!(sq.state, Some(SquashStretchState::Stretch));
    // interpolation restarts from where the squash was headed
    assert_eq!(sq.from_pos, Vec2 { x: 1200, y: 800 });
}

#[test]
fn squash_state_machine_relaxes_through_restore() {
    let mut sq = squashy();
    sq.state = Some(SquashStretchState::Squash);

    squash_states(&mut sq, 50);
    assert_eq!(sq.state, Some(SquashStretchState::Squash));
    assert_eq!(sq.state_time, 50);

    squash_states(&mut sq, 60);
    assert_eq!(sq.state, Some(SquashStretchState::Restore));
    assert_eq!(sq.state_time, 0);
    assert_eq!(sq.from_pos, Vec2 { x: 1200, y: 800 });

    squash_states(&mut sq, 150);
    assert_eq!(sq.state, None);
}

#[test]
fn squash_animation_interpolates_exactly() {
    let mut sq = squashy();
    sq.state = Some(SquashStretchState::Squash);
    sq.state_time = 50;
    let (size, anchor) = squash_animation(&sq).unwrap();
    assert_eq!(size, Vec2 { x: 1100, y: 900 });
    assert_eq!(anchor, Vec2 { x: 0, y: 50 });
}

#[test]
fn no_squash_state_means_identity_scale() {
    let sq = squashy();
    assert!(squash_animation(&sq).is_none());
}

#[test]
fn animation_rows_follow_state() {
    let actor = Actor::default();
    let r = rows();

    let mut status = ActorStatus::new();
    status.grounded = true;
    status.velocity = Vec2 { x: 30_000, y: 0 };
    assert_eq!(actor_animations(&actor, &status, &r).row, 1);

    status.velocity = Vec2 { x: 10_000, y: 0 };
    assert_eq!(actor_animations(&actor, &status, &r).row, 0);

    status.grounded = false;
    status.velocity = Vec2 { x: 0, y: 0 };
    assert_eq!(actor_animations(&actor, &status, &r).row, 2);

    status.velocity = Vec2 { x: 0, y: -20_000 };
    assert_eq!(actor_animations(&actor, &status, &r).row, 3);

    status.attack_direction = Some(Vec2 { x: 1000, y: 0 });
    status.attack_timer = 100;
    let sel = actor_animations(&actor, &status, &r);
    assert_eq!(sel.row, 4);
    assert_eq!(sel.progress, Some(500));

    status.facing_left = true;
    assert!(actor_animations(&actor, &status, &r).flip_x);
}

#[test]
fn player_inputs_with_coyote_time() {
    let mut actor = Actor::default();
    let mut status = ActorStatus::new();
    status.air_timer = 100;
    player_inputs(&mut actor, &status, -500, true, false);
    assert_eq!(actor.move_input, -500);
    assert!(actor.jump_input);
    // airborne but within the grace window
    assert!(actor.can_jump);
    assert!(actor.attack_input.is_none());

    status.air_timer = 300;
    player_inputs(&mut actor, &status, 0, true, false);
    assert!(!actor.can_jump);

    status.grounded = true;
    player_inputs(&mut actor, &status, 0, true, false);
    assert!(actor.can_jump);
}

#[test]
fn player_attack_input_follows_facing_and_gates_on_idle() {
    let mut actor = Actor::default();
    let mut status = ActorStatus::new();
    player_inputs(&mut actor, &status, 0, false, true);
    assert_eq!(actor.attack_input, Some(Vec2 { x: 1000, y: 0 }));

    status.facing_left = true;
    player_inputs(&mut actor, &status, 0, false, true);
    assert_eq!(actor.attack_input, Some(Vec2 { x: -1000, y: 0 }));

    // while an attack runs, no new attack intent is produced
    status.attack_direction = Some(Vec2 { x: 1000, y: 0 });
    player_inputs(&mut actor, &status, 0, false, true);
    assert!(actor.attack_input.is_none());
}

#[test]
fn actor_patch_overrides_and_clamps() {
    let base = Actor::default();
    let mut patch = ActorPatch::empty();
    patch.move_speed = Some(90_000);
    patch.drag = Some(5000);
    patch.accel = Some(-3);
    let patched = base.patched(&patch);
    assert_eq!(patched.move_speed, 90_000);
    // out-of-range authoring values are clamped, never fatal
    assert_eq!(patched.drag, 1000);
    assert_eq!(patched.accel, 0);
    // everything unpatched keeps its default
    assert_eq!(patched.deccel, 2_000_000);
    assert_eq!(patched.jump_speed, 800_000);
}

#[test]
fn unknown_fields_are_carried_not_fatal() {
    let mut patch = ActorPatch::empty();
    patch.unknown.push(String::from("Bounciness"));
    let patched = Actor::default().patched(&patch);
    assert_eq!(patched.move_speed, 120_000);
    assert_eq!(patch.unknown, vec![String::from("Bounciness")]);
}

#[test]
fn soul_and_door_authoring() {
    let soul = Soul::authored(&SoulPatch {
        can_move: Some(true),
        move_speed: None,
        accel: Some(80_000),
        unknown: Vec::new(),
    });
    assert!(soul.can_move);
    assert_eq!(soul.move_speed, 120_000);
    assert_eq!(soul.accel, 80_000);
    assert!(!soul.from_ghost);
    assert_eq!(soul.velocity, Vec2 { x: 0, y: 0 });

    let door = Door::authored(&DoorPatch {
        next_level: Some(4),
        required_souls: Some(3),
        unknown: Vec::new(),
    });
    assert_eq!(door, Door { next_level: 4, required_souls: 3 });
    assert_eq!(Door::default(), Door { next_level: 0, required_souls: 0 });
}
