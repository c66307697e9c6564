//! Combat resolution: what a hurtbox does when a hitbox overlaps it.
use crate::hitbox::Hitbox;
use crate::stats::{damaged, fires_no_health, Stats};
use crate::vector::{scale, scale_spec, Vec2, MAX_COORD};
use vstd::prelude::*;

verus! {

/// What the host has to carry out after a hit: start the invincibility
/// window of the hurtbox (during which it ignores further overlaps), show
/// the hit effect, and, where `no_health` holds, deliver the "no health"
/// notification.
#[derive(Clone, Copy, Debug, PartialEq, Eq, Structural)]
pub struct HitResponse {
    pub no_health: bool,
    pub invincibility_ms: i64,
}

/// Applies a hit to an actor: its health drops by the hitbox's damage
/// (never below zero) and its knockback becomes the hitbox's knockback
/// vector times `knockback_scale`.
pub fn resolve_hit(
    stats: &mut Stats,
    knockback: &mut Vec2,
    hitbox: &Hitbox,
    knockback_scale: i64,
    invincibility_ms: i64,
) -> (r: HitResponse)
    requires
        old(stats).wf(),
        hitbox.wf(),
        -MAX_COORD <= knockback_scale <= MAX_COORD,
    ensures
        final(stats).wf(),
        final(stats).max_health == old(stats).max_health,
        final(stats).health == damaged(old(stats).health as int, hitbox.damage as int),
        r.no_health == fires_no_health(old(stats).health as int, hitbox.damage as int),
        *final(knockback) == scale_spec(hitbox.knockback_vector, knockback_scale as int, 1),
        final(knockback).wf(),
        r.invincibility_ms == invincibility_ms,
{
    let no_health = stats.take_damage(hitbox.get_hitbox_damage());
    *knockback = scale(hitbox.knockback_vector, knockback_scale, 1);
    HitResponse { no_health, invincibility_ms }
}

} // verus!
