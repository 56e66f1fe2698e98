use reaper_core::actor::{ActorEvent, ActorStatus, Scythable};
use reaper_core::door::Door;
use reaper_core::pickup::{
    actor_pickup_effects, check_for_pickups, Pickup, PickupContact, PickupEvent, PickupType,
};
use reaper_core::soul::{soul_pickups, Soul};
use reaper_core::vec2::Vec2;
use reaper_core::world::{
    cut_wheat, door_consume_souls, player_death, player_win, reload_despawns, switch_level,
    ChangeLevelEvent, Contact, END_OF_GAME,
};

fn authored_soul() -> Soul {
    Soul {
        can_move: false,
        move_speed: 120_000,
        accel: 40_000,
        velocity: Vec2 { x: 0, y: 0 },
        from_ghost: false,
    }
}

fn dropped_soul() -> Soul {
    Soul { from_ghost: true, can_move: true, ..authored_soul() }
}

#[test]
fn door_opens_after_exactly_three_souls() {
    let mut door = Door { next_level: 2, required_souls: 3 };

    assert!(!door.collect_soul());
    assert_eq!(door.required_souls, 2);
    assert!(!door.is_open());

    assert!(!door.collect_soul());
    assert_eq!(door.required_souls, 1);
    assert!(!door.is_open());

    assert!(door.collect_soul());
    assert_eq!(door.required_souls, 0);
    assert!(door.is_open());

    // an open door absorbs further souls without wrapping
    assert!(!door.collect_soul());
    assert_eq!(door.required_souls, 0);
}

#[test]
fn door_batch_collection_floors_at_zero() {
    let mut door = Door { next_level: 1, required_souls: 3 };
    assert!(!door.apply_soul_events(2));
    assert_eq!(door.required_souls, 1);
    assert!(door.apply_soul_events(5));
    assert_eq!(door.required_souls, 0);
    assert!(!door.apply_soul_events(5));
    assert_eq!(door.required_souls, 0);
}

#[test]
fn win_only_through_open_door_and_only_once() {
    let mut status = ActorStatus::new();
    let mut doors = vec![Door { next_level: 7, required_souls: 1 }];

    // shut door: no transition
    assert!(player_win(&mut doors, &mut status).is_none());
    assert!(status.events.is_empty());

    doors[0].collect_soul();
    let ev = player_win(&mut doors, &mut status).unwrap();
    assert_eq!(ev, ChangeLevelEvent { index: 7, completed: false });
    assert_eq!(status.events, vec![ActorEvent::Win]);
    // the door is marked passed, so the transition fires only once
    assert_eq!(doors[0].required_souls, usize::MAX);
    assert!(player_win(&mut doors, &mut status).is_none());
    assert_eq!(status.events, vec![ActorEvent::Win]);
}

#[test]
fn win_through_final_door_completes_the_game() {
    let mut status = ActorStatus::new();
    let mut doors = vec![
        Door { next_level: 3, required_souls: 4 },
        Door { next_level: END_OF_GAME, required_souls: 0 },
    ];
    let ev = player_win(&mut doors, &mut status).unwrap();
    assert_eq!(ev, ChangeLevelEvent { index: END_OF_GAME, completed: true });
}

#[test]
fn pickup_bridge_emits_typed_events_and_despawns_all() {
    let contacts = vec![
        PickupContact {
            id: 7,
            pickup: Pickup { pickup_type: Some(PickupType::Soul) },
            position: Vec2 { x: 1, y: 2 },
        },
        PickupContact { id: 8, pickup: Pickup { pickup_type: None }, position: Vec2 { x: 3, y: 4 } },
    ];
    let (events, despawn) = check_for_pickups(42, &contacts);
    assert_eq!(despawn, vec![7, 8]);
    assert_eq!(events.len(), 1);
    assert_eq!(
        events[0],
        PickupEvent {
            pickup_id: 7,
            pickup_position: Vec2 { x: 1, y: 2 },
            pickup_type: PickupType::Soul,
            collector_id: 42,
        }
    );
}

#[test]
fn soul_pickups_count_soul_typed_events() {
    let ev = PickupEvent {
        pickup_id: 1,
        pickup_position: Vec2 { x: 0, y: 0 },
        pickup_type: PickupType::Soul,
        collector_id: 9,
    };
    assert_eq!(soul_pickups(&vec![]).len(), 0);
    assert_eq!(soul_pickups(&vec![ev, ev]).len(), 2);
}

#[test]
fn pickup_effects_reach_only_the_collector() {
    let mine = PickupEvent {
        pickup_id: 1,
        pickup_position: Vec2 { x: 0, y: 0 },
        pickup_type: PickupType::Soul,
        collector_id: 5,
    };
    let other = PickupEvent { collector_id: 9, ..mine };
    let mut status = ActorStatus::new();
    actor_pickup_effects(&mut status, &vec![mine, other, mine], 5);
    assert_eq!(status.events, vec![ActorEvent::Pickup, ActorEvent::Pickup]);
}

#[test]
fn lethal_contact_requests_reload() {
    let mut status = ActorStatus::new();
    let contacts = vec![
        Contact { id: 1, touch_death: false },
        Contact { id: 2, touch_death: true },
    ];
    assert!(player_death(&contacts, &mut status));
    assert_eq!(status.events, vec![ActorEvent::Died]);
}

#[test]
fn harmless_contact_does_nothing() {
    let mut status = ActorStatus::new();
    let contacts = vec![Contact { id: 1, touch_death: false }];
    assert!(!player_death(&contacts, &mut status));
    assert!(status.events.is_empty());
    assert!(!player_death(&vec![], &mut status));
}

#[test]
fn reload_despawns_only_ghost_dropped_souls() {
    // death and reload: the ghost-dropped souls go, the level-authored
    // ones persist and respawn with the level
    let mut status = ActorStatus::new();
    let lethal = vec![Contact { id: 3, touch_death: true }];
    assert!(player_death(&lethal, &mut status));

    let souls = vec![authored_soul(), dropped_soul(), authored_soul(), dropped_soul()];
    let despawn = reload_despawns(&souls);
    assert_eq!(despawn, vec![1, 3]);
}

#[test]
fn switch_level_marks_completed_transitions() {
    let mut selection: usize = 2;
    let mark = switch_level(&mut selection, &ChangeLevelEvent { index: 5, completed: true });
    assert_eq!(selection, 5);
    assert_eq!(mark, Some(2));

    let mark = switch_level(&mut selection, &ChangeLevelEvent { index: 1, completed: false });
    assert_eq!(selection, 1);
    assert!(mark.is_none());
}

#[test]
fn door_consuming_souls_queues_unlock_once() {
    let mut status = ActorStatus::new();
    let mut door = Door { next_level: 1, required_souls: 2 };
    assert!(!door_consume_souls(&mut door, 1, &mut status));
    assert!(status.events.is_empty());
    assert!(door_consume_souls(&mut door, 3, &mut status));
    assert_eq!(status.events, vec![ActorEvent::Unlock]);
    assert!(!door_consume_souls(&mut door, 1, &mut status));
    assert_eq!(status.events, vec![ActorEvent::Unlock]);
}

#[test]
fn cut_wheat_finds_scythed_stalks() {
    let wheat = vec![
        Scythable { scythed: false, hit_from: None },
        Scythable { scythed: true, hit_from: Some(Vec2 { x: 1, y: 2 }) },
        Scythable { scythed: true, hit_from: None },
    ];
    assert_eq!(cut_wheat(&wheat), vec![1, 2]);
    assert!(cut_wheat(&vec![]).is_empty());
}
