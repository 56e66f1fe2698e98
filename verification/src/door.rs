//! Door unlock gating.
//!
//! A door demands a number of collected souls. Each qualifying pickup
//! notification decrements the counter; at zero the door is open and the
//! win check may carry the player through it. The decrement floors at zero
//! so a flood of notifications can never wrap the counter, and passing
//! through sets the counter to a sentinel so the transition fires only
//! once.

use vstd::prelude::*;

verus! {

/// A level exit demanding souls.
#[derive(Clone, Copy, Debug, PartialEq, Eq, Structural)]
pub struct Door {
    pub next_level: usize,
    pub required_souls: usize,
}

impl Default for Door {
    fn default() -> (r: Door)
        ensures
            r == (Door { next_level: 0, required_souls: 0 }),
    {
        Door { next_level: 0, required_souls: 0 }
    }
}

/// One qualifying pickup: the demand drops by one, and an already open
/// door stays open.
pub open spec fn collected_once(r: nat) -> nat {
    if r > 0 {
        (r - 1) as nat
    } else {
        r
    }
}

/// `n` qualifying pickups in sequence.
pub open spec fn collected_n(r: nat, n: nat) -> nat
    decreases n,
{
    if n == 0 {
        r
    } else {
        collected_once(collected_n(r, (n - 1) as nat))
    }
}

/// Repeated collection is subtraction floored at zero.
pub proof fn lemma_collected_n_closed(r: nat, n: nat)
    ensures
        collected_n(r, n) == if n >= r {
            0nat
        } else {
            (r - n) as nat
        },
    decreases n,
{
    if n > 0 {
        lemma_collected_n_closed(r, (n - 1) as nat);
    }
}

impl Door {
    /// Whether the win check may carry the player through.
    pub fn is_open(&self) -> (r: bool)
        ensures
            r <==> self.required_souls == 0,
    {
        self.required_souls == 0
    }

    /// Consume one qualifying soul pickup; true exactly when this pickup
    /// is the one that opens the door.
    pub fn collect_soul(&mut self) -> (unlocked: bool)
        ensures
            final(self).required_souls == collected_once(old(self).required_souls as nat),
            final(self).next_level == old(self).next_level,
            unlocked <==> old(self).required_souls == 1,
    {
        if self.required_souls > 0 {
            self.required_souls = self.required_souls - 1;
            self.required_souls == 0
        } else {
            false
        }
    }

    /// Consume `n` qualifying soul pickups; true exactly when one of them
    /// opened the door.
    pub fn apply_soul_events(&mut self, n: usize) -> (unlocked: bool)
        ensures
            final(self).required_souls == collected_n(old(self).required_souls as nat, n as nat),
            final(self).next_level == old(self).next_level,
            unlocked <==> 0 < old(self).required_souls <= n,
    {
        let mut unlocked = false;
        let mut i: usize = 0;
        while i < n
            invariant
                i <= n,
                self.required_souls == collected_n(old(self).required_souls as nat, i as nat),
                self.next_level == old(self).next_level,
                unlocked <==> 0 < old(self).required_souls <= i,
            decreases n - i,
        {
            proof {
                lemma_collected_n_closed(old(self).required_souls as nat, i as nat);
                lemma_collected_n_closed(old(self).required_souls as nat, (i + 1) as nat);
            }
            let opened_now = self.collect_soul();
            unlocked = unlocked || opened_now;
            i = i + 1;
        }
        unlocked
    }

    /// Mark the door permanently passed, so the level transition through it
    /// fires only once.
    pub fn mark_passed(&mut self)
        ensures
            final(self).required_souls == usize::MAX,
            final(self).next_level == old(self).next_level,
    {
        self.required_souls = usize::MAX;
    }
}

/// Door unlock count: a door demanding three souls is still shut after any
/// fewer than three qualifying pickups and open after exactly three — only
/// then may the win check pass the player through.
pub proof fn lemma_door_unlock_count(d: Door)
    requires
        d.required_souls == 3,
    ensures
        forall|k: nat| k < 3 ==> collected_n(d.required_souls as nat, k) > 0,
        collected_n(d.required_souls as nat, 3) == 0,
{
    assert forall|k: nat| k < 3 implies collected_n(d.required_souls as nat, k) > 0 by {
        lemma_collected_n_closed(d.required_souls as nat, k);
    }
    lemma_collected_n_closed(d.required_souls as nat, 3);
}

} // verus!
