use reaper_core::actor::{Actor, ActorStatus, Scythable};
use reaper_core::ghost::{ghost_death, ghost_movement, GhostState, ESCAPE_SPEED};
use reaper_core::soul::{
    flee_priority, soul_movement, space_of, wave, SenseCast, Soul, SoulSenses,
};
use reaper_core::vec2::Vec2;

fn open_senses() -> SoulSenses {
    SoulSenses { up: None, down: None, left: None, right: None }
}

#[test]
fn ghost_patrol_bounces_off_left_wall() {
    // ghost starts moving left; the tick the left wall is sensed, the
    // intent flips from full negative to full positive
    let mut ghost = GhostState { move_left: true };
    let mut actor = Actor::default();
    let mut status = ActorStatus::new();

    ghost_movement(&mut ghost, &mut actor, &status);
    assert_eq!(actor.move_input, -1000);

    status.left_wall = true;
    ghost_movement(&mut ghost, &mut actor, &status);
    assert!(!ghost.move_left);
    assert_eq!(actor.move_input, 1000);
}

#[test]
fn ghost_patrol_bounces_off_right_wall() {
    let mut ghost = GhostState { move_left: false };
    let mut actor = Actor::default();
    let mut status = ActorStatus::new();
    status.right_wall = true;
    ghost_movement(&mut ghost, &mut actor, &status);
    assert!(ghost.move_left);
    assert_eq!(actor.move_input, -1000);
}

#[test]
fn unscythed_ghost_drops_nothing() {
    let drop = ghost_death(Vec2 { x: 0, y: 0 }, &Scythable { scythed: false, hit_from: None });
    assert!(drop.is_none());
}

#[test]
fn scythed_ghost_drops_escaping_soul() {
    let pos = Vec2 { x: 30_000, y: 40_000 };
    let sc = Scythable { scythed: true, hit_from: Some(Vec2 { x: 0, y: 0 }) };
    let soul = ghost_death(pos, &sc).unwrap();
    assert!(soul.can_move);
    assert!(soul.from_ghost);
    assert_eq!(soul.move_speed, ESCAPE_SPEED);
    assert_eq!(soul.accel, 80_000);
    // |(30,40)| = 50 units: the escape velocity is the direction scaled to
    // the escape speed
    assert_eq!(soul.velocity, Vec2 { x: 96_000, y: 128_000 });
}

#[test]
fn scythed_ghost_without_origin_escapes_upward() {
    let sc = Scythable { scythed: true, hit_from: None };
    let soul = ghost_death(Vec2 { x: 7, y: 8 }, &sc).unwrap();
    assert_eq!(soul.velocity, Vec2 { x: 0, y: 60_000 });
}

#[test]
fn flee_priority_cubic_falloff() {
    // at a quarter of the comfortable distance the ratio is 4, cubed 64
    assert_eq!(flee_priority(64_000), 64_000);
    // at the comfortable distance the priority is exactly one
    assert_eq!(flee_priority(256_000), 1000);
    // ten times as far it is all but gone
    assert_eq!(flee_priority(2_560_000), 1);
    // and farther still it vanishes
    assert_eq!(flee_priority(25_600_000), 0);
}

#[test]
fn space_weights_hazards_quadruple() {
    assert_eq!(space_of(None), 256_000);
    assert_eq!(space_of(Some(SenseCast { dist: 100_000, hazard: false })), 100_000);
    assert_eq!(space_of(Some(SenseCast { dist: 100_000, hazard: true })), 25_000);
}

#[test]
fn wave_is_a_unit_triangle() {
    assert_eq!(wave(0), 0);
    assert_eq!(wave(1570), 999);
    assert_eq!(wave(3141), 1);
    assert_eq!(wave(4712), -999);
    assert_eq!(wave(6283), 0);
}

#[test]
fn immobile_soul_wanders() {
    let mut soul = Soul {
        can_move: false,
        move_speed: 120_000,
        accel: 40_000,
        velocity: Vec2 { x: 0, y: 0 },
        from_ghost: false,
    };
    let tr = soul_movement(
        &mut soul,
        Vec2 { x: 0, y: 0 },
        Some(Vec2 { x: 0, y: 0 }),
        &open_senses(),
        0,
        100,
    );
    assert_eq!(tr, Some(Vec2 { x: 0, y: 199 }));
    assert_eq!(soul.velocity, Vec2 { x: 0, y: 0 });
}

#[test]
fn mobile_soul_without_player_waits() {
    let mut soul = Soul {
        can_move: true,
        move_speed: 120_000,
        accel: 40_000,
        velocity: Vec2 { x: 9, y: 9 },
        from_ghost: false,
    };
    let tr = soul_movement(&mut soul, Vec2 { x: 0, y: 0 }, None, &open_senses(), 0, 100);
    assert!(tr.is_none());
    assert_eq!(soul.velocity, Vec2 { x: 9, y: 9 });
}

#[test]
fn flying_soul_flees_and_restores_height() {
    // soul 64 units right of the player in open space: flee pushes right,
    // the height bias pulls down, the wander adds its small term
    let mut soul = Soul {
        can_move: true,
        move_speed: 120_000,
        accel: 40_000,
        velocity: Vec2 { x: 0, y: 0 },
        from_ghost: false,
    };
    let tr = soul_movement(
        &mut soul,
        Vec2 { x: 64_000, y: 0 },
        Some(Vec2 { x: 0, y: 0 }),
        &open_senses(),
        0,
        100,
    );
    assert_eq!(soul.velocity, Vec2 { x: 2872, y: -2780 });
    assert_eq!(tr, Some(Vec2 { x: 287, y: -278 }));
}

#[test]
fn flying_soul_speed_stays_clamped() {
    let mut soul = Soul {
        can_move: true,
        move_speed: 3000,
        accel: 1_000_000_000,
        velocity: Vec2 { x: 0, y: 0 },
        from_ghost: false,
    };
    for _ in 0..10 {
        let _ = soul_movement(
            &mut soul,
            Vec2 { x: 64_000, y: 0 },
            Some(Vec2 { x: 0, y: 0 }),
            &open_senses(),
            0,
            100,
        );
        assert!(soul.velocity.x.abs() <= 3000);
        assert!(soul.velocity.y.abs() <= 3000);
    }
}

#[test]
fn soul_bounces_softly_off_near_ceiling() {
    // a ceiling within one unit reflects a rising velocity at half
    // magnitude
    let mut soul = Soul {
        can_move: true,
        move_speed: 120_000,
        accel: 40_000,
        velocity: Vec2 { x: 0, y: 20_000 },
        from_ghost: false,
    };
    let senses = SoulSenses {
        up: Some(SenseCast { dist: 500, hazard: false }),
        down: None,
        left: None,
        right: None,
    };
    let _ = soul_movement(
        &mut soul,
        Vec2 { x: 64_000, y: 0 },
        Some(Vec2 { x: 0, y: 0 }),
        &senses,
        0,
        100,
    );
    assert_eq!(soul.velocity.y, -8072);
}
