//! Level progression: winning, dying, reloading, switching.
//!
//! Each tick the physics collaborator overlaps the player's hitbox against
//! the doors and the touch-death entities; the functions here decide what
//! follows: a level transition through the first open door (fired once), a
//! reload request on lethal contact, the despawn set of a reload, and the
//! level switch with its save-marking side condition.

use vstd::prelude::*;

use crate::actor::{ActorEvent, ActorStatus};
use crate::door::Door;
use crate::soul::Soul;

verus! {

/// Destination index that means the game is over rather than another
/// level.
pub const END_OF_GAME: usize = usize::MAX;

/// A request to rebuild the current level.
#[derive(Clone, Copy, Debug, PartialEq, Eq, Structural)]
pub struct ReloadWorldEvent;

/// A request to move to another level, marking the current one completed
/// when `completed` holds.
#[derive(Clone, Copy, Debug, PartialEq, Eq, Structural)]
pub struct ChangeLevelEvent {
    pub index: usize,
    pub completed: bool,
}

/// One entity the player's overlap query returned.
#[derive(Clone, Copy, Debug, PartialEq, Eq, Structural)]
pub struct Contact {
    pub id: u64,
    pub touch_death: bool,
}

/// The first open door in the overlap list, or the list's length when none
/// is open.
pub open spec fn first_open_door(doors: Seq<Door>) -> int
    decreases doors.len(),
{
    if doors.len() == 0 {
        0
    } else if doors[0].required_souls == 0 {
        0
    } else {
        1 + first_open_door(doors.drop_first())
    }
}

pub proof fn lemma_first_open_door(doors: Seq<Door>)
    ensures
        0 <= first_open_door(doors) <= doors.len(),
        forall|k: int|
            0 <= k < first_open_door(doors) ==> #[trigger] doors[k].required_souls != 0,
        first_open_door(doors) < doors.len() ==> doors[first_open_door(doors)].required_souls
            == 0,
    decreases doors.len(),
{
    if doors.len() > 0 && doors[0].required_souls != 0 {
        let rest = doors.drop_first();
        lemma_first_open_door(rest);
        assert forall|k: int|
            0 <= k < first_open_door(doors) implies #[trigger] doors[k].required_souls
            != 0 by {
            if k > 0 {
                assert(doors[k] == rest[k - 1]);
            }
        }
        if first_open_door(doors) < doors.len() {
            assert(doors[first_open_door(doors)] == rest[first_open_door(doors) - 1]);
        }
    }
}

/// Win check: the player standing in an open door leaves through it.
///
/// The first open door in the list is taken; it is marked passed (its
/// counter set to the sentinel) so the transition fires only once, a `Win`
/// event is queued, and the transition request carries the door's
/// destination — flagged completed exactly when that destination is the
/// end of the game.
pub fn player_win(doors: &mut Vec<Door>, status: &mut ActorStatus) -> (r: Option<
    ChangeLevelEvent,
>)
    ensures
        final(status).wf() == old(status).wf(),
        final(status).velocity == old(status).velocity,
        final(status).grounded == old(status).grounded,
        final(status).facing_left == old(status).facing_left,
        final(status).air_timer == old(status).air_timer,
        final(status).attack_direction == old(status).attack_direction,
        final(status).attack_timer == old(status).attack_timer,
        final(status).left_wall == old(status).left_wall,
        final(status).right_wall == old(status).right_wall,
        final(status).last_dt == old(status).last_dt,
        first_open_door(old(doors)@) == old(doors).len() ==> r is None && final(doors)@ == old(
            doors,
        )@ && final(status).events@ == old(status).events@,
        first_open_door(old(doors)@) < old(doors).len() ==> {
            let j = first_open_door(old(doors)@);
            let d = old(doors)@[j];
            &&& r == Some(
                ChangeLevelEvent { index: d.next_level, completed: d.next_level == END_OF_GAME },
            )
            &&& final(doors)@ == old(doors)@.update(
                j,
                Door { next_level: d.next_level, required_souls: usize::MAX },
            )
            &&& final(status).events@ == old(status).events@.push(ActorEvent::Win)
        },
{
    let n = doors.len();
    let mut i: usize = 0;
    while i < n
        invariant
            i <= n,
            n == doors.len(),
            doors@ == old(doors)@,
            *status == *old(status),
            forall|k: int| 0 <= k < i ==> #[trigger] doors@[k].required_souls != 0,
        decreases n - i,
    {
        if doors[i].is_open() {
            proof {
                lemma_first_open_prefix(old(doors)@, i as int);
                lemma_first_open_door(old(doors)@);
                assert(old(doors)@[i as int].required_souls == 0);
                assert(first_open_door(old(doors)@) == i);
            }
            let d = doors[i];
            let mut passed = d;
            passed.mark_passed();
            doors.set(i, passed);
            status.events.push(ActorEvent::Win);
            return Some(
                ChangeLevelEvent { index: d.next_level, completed: d.next_level == END_OF_GAME },
            );
        }
        i = i + 1;
    }
    proof {
        lemma_first_open_prefix(old(doors)@, n as int);
        lemma_first_open_door(old(doors)@);
    }
    None
}

/// If every door before `i` is shut, the first open door is at least `i`;
/// and if door `i` is open it is exactly `i`.
proof fn lemma_first_open_prefix(doors: Seq<Door>, i: int)
    requires
        0 <= i <= doors.len(),
        forall|k: int| 0 <= k < i ==> #[trigger] doors[k].required_souls != 0,
    ensures
        first_open_door(doors) >= i,
    decreases i,
{
    lemma_first_open_door(doors);
    if i > 0 {
        let rest = doors.drop_first();
        assert(doors[0].required_souls != 0);
        assert forall|k: int| 0 <= k < i - 1 implies #[trigger] rest[k].required_souls != 0 by {
            assert(rest[k] == doors[k + 1]);
        }
        lemma_first_open_prefix(rest, i - 1);
        assert(first_open_door(doors) == 1 + first_open_door(rest));
    }
}

/// Death check: any lethal contact queues a `Died` event and requests a
/// reload; without one nothing happens.
pub fn player_death(contacts: &Vec<Contact>, status: &mut ActorStatus) -> (reload: bool)
    ensures
        reload <==> exists|k: int| 0 <= k < contacts.len() && #[trigger] contacts@[k].touch_death,
        final(status).events@ == if reload {
            old(status).events@.push(ActorEvent::Died)
        } else {
            old(status).events@
        },
        final(status).wf() == old(status).wf(),
        final(status).velocity == old(status).velocity,
        final(status).grounded == old(status).grounded,
        final(status).facing_left == old(status).facing_left,
        final(status).air_timer == old(status).air_timer,
        final(status).attack_direction == old(status).attack_direction,
        final(status).attack_timer == old(status).attack_timer,
        final(status).left_wall == old(status).left_wall,
        final(status).right_wall == old(status).right_wall,
        final(status).last_dt == old(status).last_dt,
{
    let n = contacts.len();
    let mut i: usize = 0;
    while i < n
        invariant
            i <= n,
            n == contacts.len(),
            *status == *old(status),
            forall|k: int| 0 <= k < i ==> !#[trigger] contacts@[k].touch_death,
        decreases n - i,
    {
        if contacts[i].touch_death {
            status.events.push(ActorEvent::Died);
            return true;
        }
        i = i + 1;
    }
    false
}

/// Reload: the souls a rebuild must despawn — exactly the ghost-dropped
/// ones, in index order; level-authored souls persist and respawn with the
/// level.
pub fn reload_despawns(souls: &Vec<Soul>) -> (despawn: Vec<usize>)
    ensures
        forall|k: int|
            0 <= k < despawn.len() ==> #[trigger] despawn@[k] < souls.len() && souls@[despawn@[k]
                as int].from_ghost,
        forall|i: int|
            0 <= i < souls.len() && #[trigger] souls@[i].from_ghost ==> despawn@.contains(
                i as usize,
            ),
        forall|k1: int, k2: int|
            0 <= k1 < k2 < despawn.len() ==> #[trigger] despawn@[k1] < #[trigger] despawn@[k2],
{
    let mut despawn: Vec<usize> = Vec::new();
    let n = souls.len();
    let mut i: usize = 0;
    while i < n
        invariant
            i <= n,
            n == souls.len(),
            forall|k: int|
                0 <= k < despawn.len() ==> #[trigger] despawn@[k] < i && souls@[despawn@[k]
                    as int].from_ghost,
            forall|j: int|
                0 <= j < i && #[trigger] souls@[j].from_ghost ==> despawn@.contains(j as usize),
            forall|k1: int, k2: int|
                0 <= k1 < k2 < despawn.len() ==> #[trigger] despawn@[k1]
                    < #[trigger] despawn@[k2],
        decreases n - i,
    {
        if souls[i].from_ghost {
            let ghost before = despawn@;
            despawn.push(i);
            proof {
                assert(forall|j: int|
                    0 <= j < before.len() ==> #[trigger] despawn@[j] == before[j]);
                assert(despawn@[despawn@.len() - 1] == i);
                assert forall|j: int|
                    0 <= j <= i && #[trigger] souls@[j].from_ghost implies despawn@.contains(
                    j as usize,
                ) by {
                    if j < i {
                        assert(before.contains(j as usize));
                        let idx = choose|idx: int|
                            0 <= idx < before.len() && before[idx] == j as usize;
                        assert(despawn@[idx] == j as usize);
                    } else {
                        assert(despawn@[despawn@.len() - 1] == i);
                    }
                }
            }
        }
        i = i + 1;
    }
    despawn
}

/// Progression step for one door: consume this tick's collected souls and,
/// on the pickup that opens the door, queue an `Unlock` event on the
/// collector.
pub fn door_consume_souls(door: &mut Door, n_souls: usize, status: &mut ActorStatus) -> (unlocked:
    bool)
    ensures
        final(door).required_souls == crate::door::collected_n(
            old(door).required_souls as nat,
            n_souls as nat,
        ),
        final(door).next_level == old(door).next_level,
        unlocked <==> 0 < old(door).required_souls <= n_souls,
        final(status).events@ == if unlocked {
            old(status).events@.push(ActorEvent::Unlock)
        } else {
            old(status).events@
        },
        final(status).wf() == old(status).wf(),
        final(status).velocity == old(status).velocity,
        final(status).grounded == old(status).grounded,
        final(status).facing_left == old(status).facing_left,
        final(status).air_timer == old(status).air_timer,
        final(status).attack_direction == old(status).attack_direction,
        final(status).attack_timer == old(status).attack_timer,
        final(status).left_wall == old(status).left_wall,
        final(status).right_wall == old(status).right_wall,
        final(status).last_dt == old(status).last_dt,
{
    let unlocked = door.apply_soul_events(n_souls);
    if unlocked {
        status.events.push(ActorEvent::Unlock);
    }
    unlocked
}

/// The scythed entries of a field of wheat: their tags were consumed this
/// tick, so their holders swap to the cut sprite and shed the tag.
pub fn cut_wheat(wheat: &Vec<crate::actor::Scythable>) -> (cut: Vec<usize>)
    ensures
        forall|k: int|
            0 <= k < cut.len() ==> #[trigger] cut@[k] < wheat.len() && wheat@[cut@[k]
                as int].scythed,
        forall|i: int|
            0 <= i < wheat.len() && #[trigger] wheat@[i].scythed ==> cut@.contains(i as usize),
        forall|k1: int, k2: int|
            0 <= k1 < k2 < cut.len() ==> #[trigger] cut@[k1] < #[trigger] cut@[k2],
{
    let mut cut: Vec<usize> = Vec::new();
    let n = wheat.len();
    let mut i: usize = 0;
    while i < n
        invariant
            i <= n,
            n == wheat.len(),
            forall|k: int|
                0 <= k < cut.len() ==> #[trigger] cut@[k] < i && wheat@[cut@[k] as int].scythed,
            forall|j: int|
                0 <= j < i && #[trigger] wheat@[j].scythed ==> cut@.contains(j as usize),
            forall|k1: int, k2: int|
                0 <= k1 < k2 < cut.len() ==> #[trigger] cut@[k1] < #[trigger] cut@[k2],
        decreases n - i,
    {
        if wheat[i].scythed {
            let ghost before = cut@;
            cut.push(i);
            proof {
                assert(forall|j: int| 0 <= j < before.len() ==> #[trigger] cut@[j] == before[j]);
                assert(cut@[cut@.len() - 1] == i);
                assert forall|j: int|
                    0 <= j <= i && #[trigger] wheat@[j].scythed implies cut@.contains(
                    j as usize,
                ) by {
                    if j < i {
                        assert(before.contains(j as usize));
                        let idx = choose|idx: int|
                            0 <= idx < before.len() && before[idx] == j as usize;
                        assert(cut@[idx] == j as usize);
                    } else {
                        assert(cut@[cut@.len() - 1] == i);
                    }
                }
            }
        }
        i = i + 1;
    }
    cut
}

/// Level switch: adopt the requested level; a completed transition hands
/// back the index of the level just left so the persistence collaborator
/// can mark it done.
pub fn switch_level(selection: &mut usize, ev: &ChangeLevelEvent) -> (mark_done: Option<usize>)
    ensures
        *final(selection) == ev.index,
        mark_done == if ev.completed {
            Some(*old(selection))
        } else {
            None::<usize>
        },
{
    let previous = *selection;
    *selection = ev.index;
    if ev.completed {
        Some(previous)
    } else {
        None
    }
}

} // verus!
