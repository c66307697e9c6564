//! Current and maximum health of an actor.
use vstd::prelude::*;

verus! {

/// Health after taking `damage` from `health`: never below zero.
pub open spec fn damaged(health: int, damage: int) -> int {
    if health - damage > 0 {
        health - damage
    } else {
        0
    }
}

/// Whether taking `damage` from `health` raises the "no health" notification:
/// only the event that brings a living actor down to zero does.
pub open spec fn fires_no_health(health: int, damage: int) -> bool {
    health > 0 && damaged(health, damage) == 0
}

pub struct Stats {
    pub max_health: i64,
    pub health: i64,
}

impl Stats {
    pub open spec fn wf(self) -> bool {
        0 < self.max_health && 0 <= self.health <= self.max_health
    }

    /// Stats of a freshly spawned actor: at full health.
    pub fn new(max_health: i64) -> (r: Stats)
        requires
            max_health > 0,
        ensures
            r.wf(),
            r.max_health == max_health,
            r.health == max_health,
    {
        Stats { max_health, health: max_health }
    }

    pub fn health(&self) -> (r: i64)
        ensures
            r == self.health,
    {
        self.health
    }

    pub fn max_health(&self) -> (r: i64)
        ensures
            r == self.max_health,
    {
        self.max_health
    }

    /// Sets the health, clamped into `0..=max_health`. Returns whether the
    /// "no health" notification is raised: the health reached zero from a
    /// positive value.
    pub fn set_health(&mut self, value: i64) -> (no_health: bool)
        requires
            old(self).wf(),
        ensures
            final(self).wf(),
            final(self).max_health == old(self).max_health,
            final(self).health == (if value < 0 {
                0
            } else if value > old(self).max_health {
                old(self).max_health as int
            } else {
                value as int
            }),
            no_health == (old(self).health > 0 && final(self).health == 0),
    {
        let before = self.health;
        if value < 0 {
            self.health = 0;
        } else if value > self.max_health {
            self.health = self.max_health;
        } else {
            self.health = value;
        }
        before > 0 && self.health == 0
    }

    /// Takes `damage` off the health, stopping at zero. Returns whether the
    /// "no health" notification is raised.
    pub fn take_damage(&mut self, damage: i64) -> (no_health: bool)
        requires
            old(self).wf(),
            damage >= 0,
        ensures
            final(self).wf(),
            final(self).max_health == old(self).max_health,
            final(self).health == damaged(old(self).health as int, damage as int),
            no_health == fires_no_health(old(self).health as int, damage as int),
    {
        self.set_health(self.health - damage)
    }
}

/// Health after a sequence of damage events, applied in order.
pub open spec fn health_after(health: int, damages: Seq<int>) -> int
    decreases damages.len(),
{
    if damages.len() == 0 {
        health
    } else {
        health_after(damaged(health, damages[0]), damages.drop_first())
    }
}

/// How many "no health" notifications a sequence of damage events raises.
pub open spec fn notifications(health: int, damages: Seq<int>) -> int
    decreases damages.len(),
{
    if damages.len() == 0 {
        0
    } else {
        (if fires_no_health(health, damages[0]) {
            1int
        } else {
            0int
        }) + notifications(damaged(health, damages[0]), damages.drop_first())
    }
}

/// However many damage events land (for instance in one tick), the "no
/// health" notification is raised exactly once if they take a living actor
/// to zero, and never otherwise; health never goes negative.
pub proof fn lemma_no_health_fires_once(health: int, damages: Seq<int>)
    requires
        health >= 0,
        forall|i: int| 0 <= i < damages.len() ==> damages[i] >= 0,
    ensures
        health_after(health, damages) >= 0,
        notifications(health, damages) == (if health > 0 && health_after(health, damages) == 0 {
            1int
        } else {
            0int
        }),
    decreases damages.len(),
{
    if damages.len() > 0 {
        let rest = damages.drop_first();
        assert forall|i: int| 0 <= i < rest.len() implies rest[i] >= 0 by {
            assert(rest[i] == damages[i + 1]);
        }
        lemma_no_health_fires_once(damaged(health, damages[0]), rest);
        if damaged(health, damages[0]) == 0 {
            lemma_dead_stays_dead(rest);
        }
    }
}

/// Once health is zero, further damage keeps it there.
proof fn lemma_dead_stays_dead(damages: Seq<int>)
    requires
        forall|i: int| 0 <= i < damages.len() ==> damages[i] >= 0,
    ensures
        health_after(0, damages) == 0,
    decreases damages.len(),
{
    if damages.len() > 0 {
        let rest = damages.drop_first();
        assert forall|i: int| 0 <= i < rest.len() implies rest[i] >= 0 by {
            assert(rest[i] == damages[i + 1]);
        }
        lemma_dead_stays_dead(rest);
    }
}

} // verus!
