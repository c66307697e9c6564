//! The flying enemy: an idle / wander / chase state machine.
//!
//! The host engine owns the body. Each physics tick it calls
//! `decay_knockback`, slides the body by `knockback` and hands the resolved
//! vector to `resolve_knockback`; it then calls `physics_process` with what
//! its collaborators report, slides the body by the returned velocity and
//! hands the resolved velocity to `resolve_velocity`.
use crate::combat::{resolve_hit, HitResponse};
use crate::hitbox::Hitbox;
use crate::random::{random_below, shuffle};
use crate::stats::{damaged, fires_no_health, Stats};
use crate::vector::{
    add_clamped, add_spec, direction_to, distance_to, floor_sqrt, move_towards, move_towards_spec,
    normalized_spec, scale, scale_spec, sq_len, step_amount, step_of, Vec2, MAX_COORD,
    MAX_DELTA_MS, UNIT,
};
use vstd::prelude::*;

verus! {

broadcast use vstd::seq_lib::group_to_multiset_ensures;

/// Rate at which knockback fades, per second.
pub const KNOCKBACK_DECAY: i64 = 200 * UNIT;

/// Factor applied to a hitbox's knockback vector on a hit.
pub const KNOCKBACK_SCALE: i64 = 120;

/// Length of the invincibility window after a hit.
pub const INVINCIBILITY_MS: i64 = 400;

/// Factor applied to the soft-collision push, per second.
pub const SOFT_PUSH_SCALE: i64 = 400;

/// Number of frames of the sprite animation.
pub const SPRITE_FRAMES: u32 = 4;

#[derive(Clone, Copy, Debug, PartialEq, Eq, Structural)]
pub enum BatState {
    Idle,
    Wander,
    Chase,
}

/// What the collaborators of the bat report at one tick.
#[derive(Clone, Copy, Debug, PartialEq, Eq, Structural)]
pub struct BatSenses {
    /// The bat's global position.
    pub position: Vec2,
    /// The wander timer has run out.
    pub wander_timer_done: bool,
    /// The wander controller's target position.
    pub wander_target: Vec2,
    /// The detected player's global position (read in the chase state).
    pub player_position: Vec2,
    /// The soft collision's push vector, when it is colliding.
    pub soft_push: Option<Vec2>,
}

/// What the host carries out after one tick.
#[derive(Clone, Copy, Debug, PartialEq, Eq, Structural)]
pub struct BatTick {
    /// The velocity to slide the body by.
    pub velocity: Vec2,
    /// Start the wander timer again, for a random duration.
    pub restart_wander_timer: bool,
    /// Flip the sprite horizontally (`Some(true)`) or not, in the chase state.
    pub flip_h: Option<bool>,
}

pub struct Bat {
    pub acceleration: i64,
    pub max_speed: i64,
    pub friction: i64,
    pub wander_target_range: i64,
    pub velocity: Vec2,
    pub knockback: Vec2,
    pub state: BatState,
    pub stats: Stats,
    pub removed: bool,
}

pub open spec fn senses_wf(s: BatSenses) -> bool {
    &&& s.position.wf()
    &&& s.wander_target.wf()
    &&& s.player_position.wf()
    &&& match s.soft_push {
        Some(p) => p.wf(),
        None => true,
    }
}

/// The velocity the wander, chase or idle rule leaves before the push.
pub open spec fn steered_velocity(b: Bat, s: BatSenses, delta_ms: int) -> Vec2 {
    match b.state {
        BatState::Idle => move_towards_spec(
            b.velocity,
            Vec2 { x: 0, y: 0 },
            step_of(b.friction as int, delta_ms),
        ),
        BatState::Wander => move_towards_spec(
            b.velocity,
            scale_spec(direction_spec(s.position, s.wander_target), b.max_speed as int, UNIT as int),
            step_of(distance_spec(s.position, s.wander_target), delta_ms),
        ),
        BatState::Chase => move_towards_spec(
            b.velocity,
            scale_spec(direction_spec(s.position, s.player_position), b.max_speed as int, UNIT as int),
            step_of(b.acceleration as int, delta_ms),
        ),
    }
}

pub open spec fn direction_spec(from: Vec2, to: Vec2) -> Vec2 {
    normalized_spec(Vec2 { x: (to.x - from.x) as i64, y: (to.y - from.y) as i64 })
}

pub open spec fn distance_spec(from: Vec2, to: Vec2) -> int {
    floor_sqrt(sq_len(to.x - from.x, to.y - from.y))
}

/// The velocity handed to the host: the steered velocity plus the
/// soft-collision push, scaled by the tick length.
pub open spec fn tick_velocity(b: Bat, s: BatSenses, delta_ms: int) -> Vec2 {
    match s.soft_push {
        Some(p) => add_spec(
            steered_velocity(b, s, delta_ms),
            scale_spec(p, SOFT_PUSH_SCALE * delta_ms, 1000),
        ),
        None => steered_velocity(b, s, delta_ms),
    }
}

pub open spec fn idle_or_wander(s: BatState) -> bool {
    s == BatState::Idle || s == BatState::Wander
}

/// A state drawn at random between idle and wander.
pub fn random_idle_or_wander() -> (r: BatState)
    ensures
        idle_or_wander(r),
{
    let mut list = vec![BatState::Idle, BatState::Wander];
    let r = pick_random_state(&mut list);
    assert(r == BatState::Idle || r == BatState::Wander) by {
        assert(seq![BatState::Idle, BatState::Wander].contains(r));
    }
    r
}

/// Shuffles `state_list` and takes its first element out.
pub fn pick_random_state(state_list: &mut Vec<BatState>) -> (r: BatState)
    requires
        old(state_list)@.len() > 0,
    ensures
        old(state_list)@.contains(r),
        final(state_list)@.len() == old(state_list)@.len() - 1,
        final(state_list)@.to_multiset() == old(state_list)@.to_multiset().remove(r),
{
    let ghost before = state_list@;
    shuffle(state_list);
    let ghost shuffled = state_list@;
    proof {
        assert(shuffled.contains(shuffled[0]));
        assert(shuffled.to_multiset().count(shuffled[0]) > 0);
        assert(before.to_multiset().count(shuffled[0]) > 0);
    }
    let r = state_list.remove(0);
    proof {
        assert(state_list@ == shuffled.remove(0));
        assert(shuffled.remove(0).to_multiset() =~= shuffled.to_multiset().remove(shuffled[0]));
    }
    r
}

impl Bat {
    pub open spec fn wf(self) -> bool {
        &&& 0 <= self.acceleration <= MAX_COORD
        &&& 0 <= self.max_speed <= MAX_COORD
        &&& 0 <= self.friction <= MAX_COORD
        &&& 0 <= self.wander_target_range
        &&& self.velocity.wf()
        &&& self.knockback.wf()
        &&& self.stats.wf()
    }

    /// Everything but the state, the velocity and the flag of removal is as
    /// in `other`.
    pub open spec fn same_config(self, other: Bat) -> bool {
        &&& self.acceleration == other.acceleration
        &&& self.max_speed == other.max_speed
        &&& self.friction == other.friction
        &&& self.wander_target_range == other.wander_target_range
    }

    /// A bat at rest in the idle state, at full health.
    pub fn new(max_health: i64) -> (r: Bat)
        requires
            max_health > 0,
        ensures
            r.wf(),
            r.acceleration == 300 * UNIT,
            r.max_speed == 50 * UNIT,
            r.friction == 200 * UNIT,
            r.wander_target_range == 4 * UNIT,
            r.velocity.is_zero(),
            r.knockback.is_zero(),
            r.state == BatState::Idle,
            r.stats.health == max_health,
            r.stats.max_health == max_health,
            !r.removed,
    {
        Bat {
            acceleration: 300 * UNIT,
            max_speed: 50 * UNIT,
            friction: 200 * UNIT,
            wander_target_range: 4 * UNIT,
            velocity: Vec2::zero(),
            knockback: Vec2::zero(),
            state: BatState::Idle,
            stats: Stats::new(max_health),
            removed: false,
        }
    }

    /// Makes the bat ready on entering the world: full health, and a state
    /// drawn between idle and wander. Returns the sprite frame to start on,
    /// drawn at random.
    pub fn ready(&mut self) -> (frame: u32)
        requires
            old(self).wf(),
        ensures
            final(self).wf(),
            frame < SPRITE_FRAMES,
            idle_or_wander(final(self).state),
            final(self).stats.health == old(self).stats.max_health,
            final(self).stats.max_health == old(self).stats.max_health,
            final(self).same_config(*old(self)),
            final(self).velocity == old(self).velocity,
            final(self).knockback == old(self).knockback,
            final(self).removed == old(self).removed,
    {
        let frame = random_below(SPRITE_FRAMES);
        self.stats.health = self.stats.max_health;
        self.state = random_idle_or_wander();
        frame
    }

    /// Lets knockback fade toward zero at its fixed rate.
    pub fn decay_knockback(&mut self, delta_ms: i64)
        requires
            old(self).wf(),
            0 <= delta_ms <= MAX_DELTA_MS,
        ensures
            final(self).wf(),
            final(self).knockback == move_towards_spec(
                old(self).knockback,
                Vec2 { x: 0, y: 0 },
                step_of(KNOCKBACK_DECAY as int, delta_ms as int),
            ),
            final(self).velocity == old(self).velocity,
            final(self).state == old(self).state,
            final(self).stats == old(self).stats,
            final(self).same_config(*old(self)),
            final(self).removed == old(self).removed,
    {
        let step = step_amount(KNOCKBACK_DECAY, delta_ms);
        self.knockback = move_towards(self.knockback, Vec2::zero(), step);
    }

    /// Stores the knockback as the host resolved it against the world.
    pub fn resolve_knockback(&mut self, resolved: Vec2)
        requires
            resolved.wf(),
        ensures
            *final(self) == (Bat { knockback: resolved, ..*old(self) }),
    {
        self.knockback = resolved;
    }

    /// Stores the velocity as the host resolved it against the world: this,
    /// not the intended velocity, is what the next tick steers from.
    pub fn resolve_velocity(&mut self, resolved: Vec2)
        requires
            resolved.wf(),
        ensures
            *final(self) == (Bat { velocity: resolved, ..*old(self) }),
    {
        self.velocity = resolved;
    }

    /// Draws a new state between idle and wander.
    pub fn update_wander(&mut self)
        ensures
            idle_or_wander(final(self).state),
            *final(self) == (Bat { state: final(self).state, ..*old(self) }),
    {
        self.state = random_idle_or_wander();
    }

    /// Steers the velocity toward `point` at the bat's acceleration, and
    /// returns whether the sprite faces left.
    pub fn accelerate_towards_point(&mut self, position: Vec2, point: Vec2, delta_ms: i64) -> (flip_h: bool)
        requires
            old(self).wf(),
            position.wf(),
            point.wf(),
            0 <= delta_ms <= MAX_DELTA_MS,
        ensures
            final(self).velocity == move_towards_spec(
                old(self).velocity,
                scale_spec(direction_spec(position, point), old(self).max_speed as int, UNIT as int),
                step_of(old(self).acceleration as int, delta_ms as int),
            ),
            final(self).wf(),
            *final(self) == (Bat { velocity: final(self).velocity, ..*old(self) }),
            flip_h == (final(self).velocity.x < 0),
    {
        let direction = direction_to(position, point);
        let target = scale(direction, self.max_speed, UNIT);
        let step = step_amount(self.acceleration, delta_ms);
        self.velocity = move_towards(self.velocity, target, step);
        self.velocity.x < 0
    }

    /// One tick of the state machine. The velocity follows the rule of the
    /// state held on entry; the wander timer's expiry, or arrival within
    /// range of the wander target, draws a new state between idle and
    /// wander; the chase state is left only through the detection zone.
    pub fn physics_process(&mut self, senses: BatSenses, delta_ms: i64) -> (r: BatTick)
        requires
            old(self).wf(),
            senses_wf(senses),
            0 <= delta_ms <= MAX_DELTA_MS,
        ensures
            final(self).wf(),
            r.velocity == tick_velocity(*old(self), senses, delta_ms as int),
            final(self).velocity == r.velocity,
            final(self).knockback == old(self).knockback,
            final(self).stats == old(self).stats,
            final(self).same_config(*old(self)),
            final(self).removed == old(self).removed,
            old(self).state == BatState::Chase ==> {
                &&& final(self).state == BatState::Chase
                &&& !r.restart_wander_timer
                &&& r.flip_h == Some(steered_velocity(*old(self), senses, delta_ms as int).x < 0)
            },
            old(self).state == BatState::Idle ==> {
                &&& r.restart_wander_timer == senses.wander_timer_done
                &&& r.flip_h.is_none()
                &&& if senses.wander_timer_done {
                    idle_or_wander(final(self).state)
                } else {
                    final(self).state == BatState::Idle
                }
            },
            old(self).state == BatState::Wander ==> {
                let arrived = distance_spec(senses.position, senses.wander_target)
                    <= old(self).wander_target_range;
                &&& r.restart_wander_timer == (senses.wander_timer_done || arrived)
                &&& r.flip_h.is_none()
                &&& if senses.wander_timer_done || arrived {
                    idle_or_wander(final(self).state)
                } else {
                    final(self).state == BatState::Wander
                }
            },
    {
        let ghost before = *self;
        let mut restart = false;
        let mut flip_h: Option<bool> = None;
        match self.state {
            BatState::Idle => {
                let step = step_amount(self.friction, delta_ms);
                self.velocity = move_towards(self.velocity, Vec2::zero(), step);
                if senses.wander_timer_done {
                    self.update_wander();
                    restart = true;
                }
            },
            BatState::Wander => {
                if senses.wander_timer_done {
                    self.update_wander();
                    restart = true;
                }
                let direction = direction_to(senses.position, senses.wander_target);
                let target = scale(direction, self.max_speed, UNIT);
                let distance = distance_to(senses.position, senses.wander_target);
                let step = step_amount(distance, delta_ms);
                self.velocity = move_towards(self.velocity, target, step);
                if distance <= self.wander_target_range {
                    self.update_wander();
                    restart = true;
                }
            },
            BatState::Chase => {
                flip_h = Some(self.accelerate_towards_point(senses.position, senses.player_position, delta_ms));
            },
        }
        assert(self.velocity == steered_velocity(before, senses, delta_ms as int));
        match senses.soft_push {
            Some(push) => {
                let push = scale(push, SOFT_PUSH_SCALE * delta_ms, 1000);
                self.velocity = add_clamped(self.velocity, push);
            },
            None => {},
        }
        BatTick { velocity: self.velocity, restart_wander_timer: restart, flip_h }
    }

    /// A hit on the hurtbox: damage to the stats and knockback scaled by
    /// `KNOCKBACK_SCALE`, then an invincibility window.
    pub fn on_hurtbox_area_entered(&mut self, hitbox: &Hitbox) -> (r: HitResponse)
        requires
            old(self).wf(),
            hitbox.wf(),
        ensures
            final(self).wf(),
            final(self).stats.max_health == old(self).stats.max_health,
            final(self).stats.health == damaged(old(self).stats.health as int, hitbox.damage as int),
            r.no_health == fires_no_health(old(self).stats.health as int, hitbox.damage as int),
            final(self).knockback == scale_spec(hitbox.knockback_vector, KNOCKBACK_SCALE as int, 1),
            r.invincibility_ms == INVINCIBILITY_MS,
            final(self).velocity == old(self).velocity,
            final(self).state == old(self).state,
            final(self).same_config(*old(self)),
            final(self).removed == old(self).removed,
    {
        resolve_hit(&mut self.stats, &mut self.knockback, hitbox, KNOCKBACK_SCALE, INVINCIBILITY_MS)
    }

    /// The stats ran out of health: the bat leaves the world, and a death
    /// effect appears where it was. Returns the position of the effect.
    pub fn on_stats_no_health(&mut self, position: Vec2) -> (effect_position: Vec2)
        ensures
            effect_position == position,
            *final(self) == (Bat { removed: true, ..*old(self) }),
    {
        self.removed = true;
        position
    }

    /// The player entered the detection zone: chase it.
    pub fn on_player_detection_zone_body_entered(&mut self)
        ensures
            *final(self) == (Bat { state: BatState::Chase, ..*old(self) }),
    {
        self.state = BatState::Chase;
    }

    /// The player left the detection zone: fall back to idle.
    pub fn on_player_detection_zone_body_exited(&mut self)
        ensures
            *final(self) == (Bat { state: BatState::Idle, ..*old(self) }),
    {
        self.state = BatState::Idle;
    }
}

} // verus!
