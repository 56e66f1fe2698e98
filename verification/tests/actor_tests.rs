use reaper_core::actor::{
    actor_attack, actor_event_clear, actor_movement, actor_status, apply_attack_hits, Actor,
    ActorEvent, ActorStatus, AttackQuery, Scythable,
};
use reaper_core::vec2::Vec2;

fn grounded_default() -> (Actor, ActorStatus) {
    let mut status = ActorStatus::new();
    status.grounded = true;
    (Actor::default(), status)
}

#[test]
fn jump_sets_velocity_and_launches() {
    let (mut actor, mut status) = grounded_default();
    actor.can_jump = true;
    actor.jump_input = true;
    let _ = actor_movement(&actor, &mut status, 16);
    assert_eq!(status.velocity.y, 800_000);
    assert_eq!(status.events, vec![ActorEvent::Launched]);
}

#[test]
fn jump_in_air_sets_velocity_without_launch_event() {
    let mut actor = Actor::default();
    actor.can_jump = true;
    actor.jump_input = true;
    let mut status = ActorStatus::new();
    let _ = actor_movement(&actor, &mut status, 16);
    assert_eq!(status.velocity.y, 800_000);
    assert!(status.events.is_empty());
}

#[test]
fn no_jump_without_permission() {
    let (mut actor, mut status) = grounded_default();
    actor.jump_input = true;
    let _ = actor_movement(&actor, &mut status, 16);
    assert_eq!(status.velocity.y, 0);
    assert!(status.events.is_empty());
}

#[test]
fn horizontal_acceleration_exact() {
    let (mut actor, mut status) = grounded_default();
    actor.move_input = 1000;
    let translation = actor_movement(&actor, &mut status, 16);
    assert_eq!(status.velocity.x, 16_000);
    assert!(!status.facing_left);
    assert_eq!(translation.x, 256);
}

#[test]
fn velocity_clamped_to_move_speed() {
    let (mut actor, mut status) = grounded_default();
    actor.move_input = 1000;
    status.velocity = Vec2 { x: 119_000, y: 0 };
    let _ = actor_movement(&actor, &mut status, 16);
    assert_eq!(status.velocity.x, 120_000);

    actor.move_input = -1000;
    status.velocity = Vec2 { x: -119_000, y: 0 };
    let _ = actor_movement(&actor, &mut status, 16);
    assert_eq!(status.velocity.x, -120_000);
}

#[test]
fn drag_strictly_decreases_speed() {
    let (actor, mut status) = grounded_default();
    status.velocity = Vec2 { x: 50_000, y: 0 };
    let _ = actor_movement(&actor, &mut status, 16);
    assert_eq!(status.velocity.x, 35_000);
    let _ = actor_movement(&actor, &mut status, 16);
    assert_eq!(status.velocity.x, 24_500);
    assert!(status.velocity.x.abs() < 35_000);
}

#[test]
fn moving_into_right_wall_zeroes_velocity() {
    let (actor, mut status) = grounded_default();
    status.velocity = Vec2 { x: 50_000, y: 0 };
    status.right_wall = true;
    let _ = actor_movement(&actor, &mut status, 16);
    assert_eq!(status.velocity.x, 0);
}

#[test]
fn moving_away_from_wall_keeps_velocity() {
    let (actor, mut status) = grounded_default();
    status.velocity = Vec2 { x: 50_000, y: 0 };
    status.left_wall = true;
    let _ = actor_movement(&actor, &mut status, 16);
    assert_eq!(status.velocity.x, 35_000);
}

#[test]
fn asymmetric_gravity_exact() {
    let actor = Actor::default();
    let mut status = ActorStatus::new();
    let _ = actor_movement(&actor, &mut status, 100);
    // rising edge of the arc is not active: velocity starts at zero, so the
    // integrator applies the upward-arc gravity constant
    assert_eq!(status.velocity.y, -30_000);

    let mut rising = ActorStatus::new();
    rising.velocity = Vec2 { x: 0, y: 10_000 };
    let _ = actor_movement(&actor, &mut rising, 100);
    assert_eq!(rising.velocity.y, 10_000 - 50_000);
}

#[test]
fn facing_holds_in_dead_zone() {
    let (mut actor, mut status) = grounded_default();
    actor.move_input = -1000;
    let _ = actor_movement(&actor, &mut status, 16);
    assert!(status.facing_left);
    actor.move_input = 50;
    let _ = actor_movement(&actor, &mut status, 16);
    assert!(status.facing_left);
    actor.move_input = 1000;
    let _ = actor_movement(&actor, &mut status, 16);
    assert!(!status.facing_left);
}

#[test]
fn sensor_recovers_velocity_from_translation() {
    let mut status = ActorStatus::new();
    status.last_dt = 16;
    actor_status(&mut status, false, Vec2 { x: 1600, y: -320 }, None, Some(5), 16);
    assert_eq!(status.velocity.x, 100_000);
    assert_eq!(status.velocity.y, -20_000);
    assert!(status.right_wall);
    assert!(!status.left_wall);
    assert_eq!(status.air_timer, 16);
    assert!(status.events.is_empty());
}

#[test]
fn sensor_zero_delta_guard_keeps_velocity() {
    let mut status = ActorStatus::new();
    status.velocity = Vec2 { x: 7000, y: 8000 };
    status.last_dt = 0;
    actor_status(&mut status, false, Vec2 { x: 999_999, y: 999_999 }, None, None, 16);
    assert_eq!(status.velocity, Vec2 { x: 7000, y: 8000 });
}

#[test]
fn sensor_landing_emits_event_and_grounds() {
    let mut status = ActorStatus::new();
    status.air_timer = 500;
    status.last_dt = 16;
    actor_status(&mut status, true, Vec2 { x: 160, y: -160 }, None, None, 16);
    assert_eq!(status.events, vec![ActorEvent::Landed]);
    assert!(status.grounded);
    assert_eq!(status.air_timer, 0);
    assert_eq!(status.velocity.y, 0);
    assert_eq!(status.velocity.x, 10_000);

    // already grounded: no second event
    actor_status(&mut status, true, Vec2 { x: 160, y: 0 }, None, None, 16);
    assert_eq!(status.events, vec![ActorEvent::Landed]);
}

#[test]
fn attack_lifecycle() {
    let mut actor = Actor::default();
    actor.attack_input = Some(Vec2 { x: 1000, y: 0 });
    let mut status = ActorStatus::new();
    let origin = Vec2 { x: 0, y: 0 };

    // arming tick: timer zeroed, direction stored, event queued, no query
    let q0 = actor_attack(&actor, &mut status, origin, 16);
    assert!(q0.is_none());
    assert_eq!(status.attack_timer, 0);
    assert_eq!(status.attack_direction, Some(Vec2 { x: 1000, y: 0 }));
    assert_eq!(status.events, vec![ActorEvent::Attack]);

    // active tick: query centred attack_range + margin along the direction
    let q1 = actor_attack(&actor, &mut status, origin, 16);
    assert_eq!(status.attack_timer, 16);
    assert_eq!(
        q1,
        Some(AttackQuery { center: Vec2 { x: 21_010, y: 0 }, radius: 16_000 })
    );

    // expiry: accumulated ticks reach attack_time, no further queries
    let q2 = actor_attack(&actor, &mut status, origin, 200);
    assert!(q2.is_none());
    assert!(status.attack_direction.is_none());
}

#[test]
fn attack_needs_permission() {
    let mut actor = Actor::default();
    actor.can_attack = false;
    actor.attack_input = Some(Vec2 { x: 1000, y: 0 });
    let mut status = ActorStatus::new();
    let q = actor_attack(&actor, &mut status, Vec2 { x: 0, y: 0 }, 16);
    assert!(q.is_none());
    assert!(status.attack_direction.is_none());
    assert!(status.events.is_empty());
}

#[test]
fn attack_hits_tag_all_targets() {
    let mut status = ActorStatus::new();
    let attacker = Vec2 { x: 5, y: 6 };
    let mut targets = vec![
        Scythable { scythed: false, hit_from: None },
        Scythable { scythed: false, hit_from: None },
    ];
    apply_attack_hits(&mut status, attacker, &mut targets);
    for t in &targets {
        assert!(t.scythed);
        assert_eq!(t.hit_from, Some(attacker));
    }
    assert_eq!(status.events, vec![ActorEvent::Hit, ActorEvent::Hit]);
}

#[test]
fn event_clear_empties_queue() {
    let mut status = ActorStatus::new();
    status.events.push(ActorEvent::Landed);
    status.events.push(ActorEvent::Attack);
    actor_event_clear(&mut status);
    assert!(status.events.is_empty());
}

#[test]
fn default_tuning_values() {
    let a = Actor::default();
    assert_eq!(a.move_speed, 120_000);
    assert_eq!(a.drag, 300);
    assert_eq!(a.accel, 1_000_000);
    assert_eq!(a.deccel, 2_000_000);
    assert_eq!(a.up_gravity, 300_000);
    assert_eq!(a.down_gravity, 500_000);
    assert_eq!(a.jump_speed, 800_000);
    assert_eq!(a.attack_time, 200);
    assert_eq!(a.attack_range, 16_000);
    assert!(!a.can_jump);
    assert!(a.can_attack);
}

#[test]
fn turn_around_uses_deceleration() {
    let (mut actor, mut status) = grounded_default();
    actor.move_input = -1000;
    status.velocity = Vec2 { x: 10_000, y: 0 };
    let _ = actor_movement(&actor, &mut status, 16);
    // deccel 2_000_000: delta = -1000 * 2_000_000 / 1000 * 16 / 1000 = -32_000
    assert_eq!(status.velocity.x, 10_000 - 32_000);
}
