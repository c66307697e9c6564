//! The player: a move / roll / attack state machine driven by input.
//!
//! Each physics tick the host first lets the knockback fade
//! (`decay_knockback`), slides the body by it and reports the result through
//! `resolve_knockback`. It then polls the input, calls `physics_process`,
//! plays the returned animation and, where the tick asks for it, slides the
//! body by `velocity` and hands the resolved velocity to `player_move`.
//! The roll and attack states end only when the host reports that their
//! animation finished.
use crate::combat::{resolve_hit, HitResponse};
use crate::hitbox::Hitbox;
use crate::stats::{damaged, fires_no_health, Stats};
use crate::vector::{
    move_towards, move_towards_spec, normalized, normalized_spec, scale, scale_spec, step_amount,
    step_of, Vec2, MAX_COORD, MAX_DELTA_MS, UNIT,
};
use vstd::prelude::*;

verus! {

/// Length of the invincibility window after a hit.
pub const PLAYER_INVINCIBILITY_MS: i64 = 500;

/// Rate at which knockback fades, per second.
pub const PLAYER_KNOCKBACK_DECAY: i64 = 200 * UNIT;

/// Factor applied to a hitbox's knockback vector on a hit: none.
pub const PLAYER_KNOCKBACK_SCALE: i64 = 1;

#[derive(Clone, Copy, Debug, PartialEq, Eq, Structural)]
pub enum PlayerState {
    Move,
    Roll,
    Attack,
}

/// The animation the host travels to.
#[derive(Clone, Copy, Debug, PartialEq, Eq, Structural)]
pub enum PlayerAnimation {
    Idle,
    Run,
    Roll,
    Attack,
}

/// The input polled at one tick.
#[derive(Clone, Copy, Debug, PartialEq, Eq, Structural)]
pub struct PlayerInput {
    /// Right minus left and down minus up action strengths, in thousandths.
    pub strength: Vec2,
    /// The roll action was just pressed.
    pub roll_pressed: bool,
    /// The attack action was just pressed.
    pub attack_pressed: bool,
}

/// What the host carries out after one tick.
#[derive(Clone, Copy, Debug, PartialEq, Eq, Structural)]
pub struct PlayerTick {
    pub animation: PlayerAnimation,
    /// Slide the body by `velocity` and report back through `player_move`.
    pub slide: bool,
    pub velocity: Vec2,
    /// The new blend position of every animation, when the input moved.
    pub blend_position: Option<Vec2>,
}

pub struct Player {
    pub acceleration: i64,
    pub max_speed: i64,
    pub friction: i64,
    pub roll_speed: i64,
    pub velocity: Vec2,
    pub knockback: Vec2,
    pub state: PlayerState,
    pub input_vector: Vec2,
    pub roll_vector: Vec2,
    pub sword_hitbox: Hitbox,
}

/// The state after the move state saw `input`: an attack press wins over a
/// roll press.
pub open spec fn next_move_state(input: PlayerInput) -> PlayerState {
    if input.attack_pressed {
        PlayerState::Attack
    } else if input.roll_pressed {
        PlayerState::Roll
    } else {
        PlayerState::Move
    }
}

impl Player {
    pub open spec fn wf(self) -> bool {
        &&& 0 <= self.acceleration <= MAX_COORD
        &&& 0 <= self.max_speed <= MAX_COORD
        &&& 0 <= self.friction <= MAX_COORD
        &&& 0 <= self.roll_speed <= MAX_COORD
        &&& self.velocity.wf()
        &&& self.knockback.wf()
        &&& self.input_vector.wf()
        &&& self.roll_vector.wf()
        &&& self.sword_hitbox.wf()
    }

    /// The speeds, rates and hitbox damage are as in `other`.
    pub open spec fn same_config(self, other: Player) -> bool {
        &&& self.acceleration == other.acceleration
        &&& self.max_speed == other.max_speed
        &&& self.friction == other.friction
        &&& self.roll_speed == other.roll_speed
        &&& self.sword_hitbox.damage == other.sword_hitbox.damage
    }

    /// A player at rest in the move state, facing down.
    pub fn new() -> (r: Player)
        ensures
            r.wf(),
            r.acceleration == 500 * UNIT,
            r.max_speed == 80 * UNIT,
            r.friction == 500 * UNIT,
            r.roll_speed == 120 * UNIT,
            r.velocity.is_zero(),
            r.knockback.is_zero(),
            r.state == PlayerState::Move,
            r.input_vector.is_zero(),
            r.roll_vector == (Vec2 { x: 0, y: UNIT }),
            r.sword_hitbox.damage == 1,
            r.sword_hitbox.knockback_vector.is_zero(),
    {
        Player {
            acceleration: 500 * UNIT,
            max_speed: 80 * UNIT,
            friction: 500 * UNIT,
            roll_speed: 120 * UNIT,
            velocity: Vec2::zero(),
            knockback: Vec2::zero(),
            state: PlayerState::Move,
            input_vector: Vec2::zero(),
            roll_vector: Vec2::new(0, UNIT),
            sword_hitbox: Hitbox::new(),
        }
    }

    /// On entering the world the sword knocks back along the facing.
    pub fn ready(&mut self)
        requires
            old(self).wf(),
        ensures
            final(self).wf(),
            *final(self) == (Player {
                sword_hitbox: Hitbox {
                    knockback_vector: old(self).roll_vector,
                    ..old(self).sword_hitbox
                },
                ..*old(self)
            }),
    {
        self.sword_hitbox.knockback_vector = self.roll_vector;
    }

    /// One tick: the rule of the current state.
    pub fn physics_process(&mut self, input: PlayerInput, delta_ms: i64) -> (r: PlayerTick)
        requires
            old(self).wf(),
            input.strength.wf(),
            0 <= delta_ms <= MAX_DELTA_MS,
        ensures
            final(self).wf(),
            final(self).same_config(*old(self)),
            old(self).state == PlayerState::Move ==> Self::move_post(
                *old(self),
                *final(self),
                input,
                delta_ms as int,
                r,
            ),
            old(self).state == PlayerState::Roll ==> Self::roll_post(*old(self), *final(self), r),
            old(self).state == PlayerState::Attack ==> Self::attack_post(*old(self), *final(self), r),
    {
        match self.state {
            PlayerState::Move => self.move_state(input, delta_ms),
            PlayerState::Roll => self.roll_state(),
            PlayerState::Attack => self.attack_state(),
        }
    }

    /// Lets knockback fade toward zero at its fixed rate, independently of
    /// the state. The host then slides the body by `knockback` and reports
    /// the resolved vector through `resolve_knockback`.
    pub fn decay_knockback(&mut self, delta_ms: i64)
        requires
            old(self).wf(),
            0 <= delta_ms <= MAX_DELTA_MS,
        ensures
            final(self).wf(),
            *final(self) == (Player {
                knockback: move_towards_spec(
                    old(self).knockback,
                    Vec2 { x: 0, y: 0 },
                    step_of(PLAYER_KNOCKBACK_DECAY as int, delta_ms as int),
                ),
                ..*old(self)
            }),
    {
        let step = step_amount(PLAYER_KNOCKBACK_DECAY, delta_ms);
        self.knockback = move_towards(self.knockback, Vec2::zero(), step);
    }

    /// Stores the knockback as the host resolved it against the world.
    pub fn resolve_knockback(&mut self, resolved: Vec2)
        requires
            resolved.wf(),
        ensures
            *final(self) == (Player { knockback: resolved, ..*old(self) }),
    {
        self.knockback = resolved;
    }

    /// The attack animation finished: back to the move state.
    pub fn attack_animation_finished(&mut self)
        ensures
            *final(self) == (Player { state: PlayerState::Move, ..*old(self) }),
    {
        self.state = PlayerState::Move;
    }

    /// The roll animation finished: the velocity is damped to four fifths
    /// and control returns to the move state.
    pub fn roll_animation_finished(&mut self)
        requires
            old(self).wf(),
        ensures
            final(self).wf(),
            final(self).velocity == scale_spec(old(self).velocity, 4, 5),
            *final(self) == (Player {
                state: PlayerState::Move,
                velocity: final(self).velocity,
                ..*old(self)
            }),
    {
        self.velocity = scale(self.velocity, 4, 5);
        self.state = PlayerState::Move;
    }

    /// A hit on the hurtbox: damage to the player's stats, knockback taken
    /// over unscaled, then an invincibility window.
    pub fn on_hurtbox_area_entered(&mut self, stats: &mut Stats, hitbox: &Hitbox) -> (r: HitResponse)
        requires
            old(self).wf(),
            old(stats).wf(),
            hitbox.wf(),
        ensures
            final(self).wf(),
            final(stats).wf(),
            final(stats).max_health == old(stats).max_health,
            final(stats).health == damaged(old(stats).health as int, hitbox.damage as int),
            r.no_health == fires_no_health(old(stats).health as int, hitbox.damage as int),
            r.invincibility_ms == PLAYER_INVINCIBILITY_MS,
            final(self).knockback == hitbox.knockback_vector,
            *final(self) == (Player { knockback: hitbox.knockback_vector, ..*old(self) }),
    {
        let r = resolve_hit(stats, &mut self.knockback, hitbox, PLAYER_KNOCKBACK_SCALE, PLAYER_INVINCIBILITY_MS);
        proof {
            assert(self.knockback == hitbox.knockback_vector);
        }
        r
    }

    pub open spec fn move_post(
        before: Player,
        after: Player,
        input: PlayerInput,
        delta_ms: int,
        r: PlayerTick,
    ) -> bool {
        let n = normalized_spec(input.strength);
        &&& after.input_vector == n
        &&& after.state == next_move_state(input)
        &&& r.slide
        &&& r.velocity == after.velocity
        &&& after.knockback == before.knockback
        &&& if n.is_zero() {
            &&& after.velocity == move_towards_spec(
                before.velocity,
                Vec2 { x: 0, y: 0 },
                step_of(before.friction as int, delta_ms),
            )
            &&& after.roll_vector == before.roll_vector
            &&& after.sword_hitbox == before.sword_hitbox
            &&& r.animation == PlayerAnimation::Idle
            &&& r.blend_position.is_none()
        } else {
            &&& after.velocity == move_towards_spec(
                before.velocity,
                scale_spec(n, before.max_speed as int, UNIT as int),
                step_of(before.acceleration as int, delta_ms),
            )
            &&& after.roll_vector == n
            &&& after.sword_hitbox.knockback_vector == n
            &&& r.animation == PlayerAnimation::Run
            &&& r.blend_position == Some(n)
        }
    }

    /// Moves by the input: accelerate toward the normalised input direction
    /// at full speed, or slow down by friction where there is no input; a
    /// roll or attack press switches state.
    pub fn move_state(&mut self, input: PlayerInput, delta_ms: i64) -> (r: PlayerTick)
        requires
            old(self).wf(),
            old(self).state == PlayerState::Move,
            input.strength.wf(),
            0 <= delta_ms <= MAX_DELTA_MS,
        ensures
            final(self).wf(),
            final(self).same_config(*old(self)),
            Self::move_post(*old(self), *final(self), input, delta_ms as int, r),
    {
        self.input_vector = normalized(input.strength);
        let blend_position: Option<Vec2>;
        let animation: PlayerAnimation;
        if self.input_vector.x != 0 || self.input_vector.y != 0 {
            self.roll_vector = self.input_vector;
            self.sword_hitbox.knockback_vector = self.input_vector;
            blend_position = Some(self.input_vector);
            animation = PlayerAnimation::Run;
            let target = scale(self.input_vector, self.max_speed, UNIT);
            let step = step_amount(self.acceleration, delta_ms);
            self.velocity = move_towards(self.velocity, target, step);
        } else {
            blend_position = None;
            animation = PlayerAnimation::Idle;
            let step = step_amount(self.friction, delta_ms);
            self.velocity = move_towards(self.velocity, Vec2::zero(), step);
        }
        if input.roll_pressed {
            self.state = PlayerState::Roll;
        }
        if input.attack_pressed {
            self.state = PlayerState::Attack;
        }
        PlayerTick { animation, slide: true, velocity: self.velocity, blend_position }
    }

    /// Stores the velocity as the host resolved it against the world.
    pub fn player_move(&mut self, resolved: Vec2)
        requires
            resolved.wf(),
        ensures
            *final(self) == (Player { velocity: resolved, ..*old(self) }),
    {
        self.velocity = resolved;
    }

    pub open spec fn roll_post(before: Player, after: Player, r: PlayerTick) -> bool {
        &&& after.velocity == scale_spec(before.roll_vector, before.roll_speed as int, UNIT as int)
        &&& after == (Player { velocity: after.velocity, ..before })
        &&& r == (PlayerTick {
            animation: PlayerAnimation::Roll,
            slide: true,
            velocity: after.velocity,
            blend_position: None,
        })
    }

    /// Rolls: the velocity is the facing times the roll speed, whatever it
    /// was before.
    pub fn roll_state(&mut self) -> (r: PlayerTick)
        requires
            old(self).wf(),
        ensures
            final(self).wf(),
            Self::roll_post(*old(self), *final(self), r),
    {
        self.velocity = scale(self.roll_vector, self.roll_speed, UNIT);
        PlayerTick {
            animation: PlayerAnimation::Roll,
            slide: true,
            velocity: self.velocity,
            blend_position: None,
        }
    }

    pub open spec fn attack_post(before: Player, after: Player, r: PlayerTick) -> bool {
        &&& after == (Player { velocity: Vec2 { x: 0, y: 0 }, ..before })
        &&& r == (PlayerTick {
            animation: PlayerAnimation::Attack,
            slide: false,
            velocity: Vec2 { x: 0, y: 0 },
            blend_position: None,
        })
    }

    /// Attacks: the player stands still and is not moved.
    pub fn attack_state(&mut self) -> (r: PlayerTick)
        requires
            old(self).wf(),
        ensures
            final(self).wf(),
            Self::attack_post(*old(self), *final(self), r),
    {
        self.velocity = Vec2::zero();
        PlayerTick {
            animation: PlayerAnimation::Attack,
            slide: false,
            velocity: self.velocity,
            blend_position: None,
        }
    }
}

} // verus!
