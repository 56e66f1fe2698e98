//! Pickup collection.
//!
//! Each tick the physics collaborator overlaps a capsule around every
//! collector against the pickup-tagged entities; `check_for_pickups` turns
//! the resulting contact list into typed pickup notifications and the list
//! of entities to despawn, and `actor_pickup_effects` queues a `Pickup`
//! event on the collector for each notification addressed to it.

use vstd::prelude::*;

use crate::actor::{ActorEvent, ActorStatus};
use crate::vec2::Vec2;

verus! {

/// What kind of thing a pickup is.
#[derive(Clone, Copy, Debug, PartialEq, Eq, Structural)]
pub enum PickupType {
    Soul,
}

/// Tag on a collectible entity; an untyped pickup despawns silently.
#[derive(Clone, Copy, Debug, PartialEq, Eq, Structural)]
pub struct Pickup {
    pub pickup_type: Option<PickupType>,
}

/// Tag on an entity that can collect pickups.
#[derive(Clone, Copy, Debug, PartialEq, Eq, Structural)]
pub struct PickupCollector;

/// A typed pickup notification for downstream consumers.
#[derive(Clone, Copy, Debug, PartialEq, Eq, Structural)]
pub struct PickupEvent {
    pub pickup_id: u64,
    pub pickup_position: Vec2,
    pub pickup_type: PickupType,
    pub collector_id: u64,
}

/// One pickup-tagged entity the collector's overlap query returned.
#[derive(Clone, Copy, Debug, PartialEq, Eq, Structural)]
pub struct PickupContact {
    pub id: u64,
    pub pickup: Pickup,
    pub position: Vec2,
}

/// The notifications a contact list produces, in order: one per typed
/// pickup.
pub open spec fn pickup_events_of(contacts: Seq<PickupContact>, collector: u64) -> Seq<
    PickupEvent,
>
    decreases contacts.len(),
{
    if contacts.len() == 0 {
        Seq::empty()
    } else {
        let rest = pickup_events_of(contacts.drop_last(), collector);
        match contacts.last().pickup.pickup_type {
            Some(t) => rest.push(
                PickupEvent {
                    pickup_id: contacts.last().id,
                    pickup_position: contacts.last().position,
                    pickup_type: t,
                    collector_id: collector,
                },
            ),
            None => rest,
        }
    }
}

/// Pickup bridge: every overlapped pickup entity despawns; the typed ones
/// additionally produce a notification carrying their kind and position.
pub fn check_for_pickups(collector_id: u64, contacts: &Vec<PickupContact>) -> (r: (
    Vec<PickupEvent>,
    Vec<u64>,
))
    ensures
        r.0@ == pickup_events_of(contacts@, collector_id),
        r.1@ == contacts@.map_values(|c: PickupContact| c.id),
{
    let mut events: Vec<PickupEvent> = Vec::new();
    let mut despawn: Vec<u64> = Vec::new();
    let n = contacts.len();
    let mut i: usize = 0;
    while i < n
        invariant
            i <= n,
            n == contacts.len(),
            events@ == pickup_events_of(contacts@.take(i as int), collector_id),
            despawn@ == contacts@.take(i as int).map_values(|c: PickupContact| c.id),
        decreases n - i,
    {
        let ghost prefix = contacts@.take(i as int);
        let c = contacts[i];
        match c.pickup.pickup_type {
            Some(t) => {
                events.push(
                    PickupEvent {
                        pickup_id: c.id,
                        pickup_position: c.position,
                        pickup_type: t,
                        collector_id,
                    },
                );
            },
            None => {},
        }
        despawn.push(c.id);
        i = i + 1;
        proof {
            assert(contacts@.take(i as int).drop_last() =~= prefix);
            assert(contacts@.take(i as int).last() == contacts@[i - 1]);
            assert(despawn@ =~= contacts@.take(i as int).map_values(
                |c: PickupContact| c.id,
            ));
        }
    }
    proof {
        assert(contacts@.take(n as int) =~= contacts@);
    }
    (events, despawn)
}

/// How many of the notifications are addressed to `collector`.
pub open spec fn pickups_for(events: Seq<PickupEvent>, collector: u64) -> nat
    decreases events.len(),
{
    if events.len() == 0 {
        0
    } else {
        pickups_for(events.drop_last(), collector) + if events.last().collector_id == collector {
            1nat
        } else {
            0nat
        }
    }
}

/// Queue one `Pickup` actor event on the collector for each notification
/// addressed to it.
pub fn actor_pickup_effects(status: &mut ActorStatus, events: &Vec<PickupEvent>, collector_id: u64)
    ensures
        final(status).events@ == old(status).events@ + Seq::new(
            pickups_for(events@, collector_id),
            |i: int| ActorEvent::Pickup,
        ),
        final(status).wf() == old(status).wf(),
        final(status).grounded == old(status).grounded,
        final(status).velocity == old(status).velocity,
        final(status).facing_left == old(status).facing_left,
        final(status).air_timer == old(status).air_timer,
        final(status).attack_direction == old(status).attack_direction,
        final(status).attack_timer == old(status).attack_timer,
        final(status).left_wall == old(status).left_wall,
        final(status).right_wall == old(status).right_wall,
        final(status).last_dt == old(status).last_dt,
{
    let n = events.len();
    let mut i: usize = 0;
    while i < n
        invariant
            i <= n,
            n == events.len(),
            status.events@ == old(status).events@ + Seq::new(
                pickups_for(events@.take(i as int), collector_id),
                |k: int| ActorEvent::Pickup,
            ),
            status.wf() == old(status).wf(),
            status.grounded == old(status).grounded,
            status.velocity == old(status).velocity,
            status.facing_left == old(status).facing_left,
            status.air_timer == old(status).air_timer,
            status.attack_direction == old(status).attack_direction,
            status.attack_timer == old(status).attack_timer,
            status.left_wall == old(status).left_wall,
            status.right_wall == old(status).right_wall,
            status.last_dt == old(status).last_dt,
        decreases n - i,
    {
        let ghost prefix = events@.take(i as int);
        if events[i].collector_id == collector_id {
            status.events.push(ActorEvent::Pickup);
        }
        i = i + 1;
        proof {
            assert(events@.take(i as int).drop_last() =~= prefix);
            assert(events@.take(i as int).last() == events@[i - 1]);
            assert(status.events@ =~= old(status).events@ + Seq::new(
                pickups_for(events@.take(i as int), collector_id),
                |k: int| ActorEvent::Pickup,
            ));
        }
    }
    proof {
        assert(events@.take(n as int) =~= events@);
    }
}

} // verus!
