//! The damage source of combat: a hitbox carries a damage amount and a
//! knockback vector.
use crate::vector::Vec2;
use vstd::prelude::*;

verus! {

pub struct Hitbox {
    pub knockback_vector: Vec2,
    pub damage: i64,
}

impl Hitbox {
    pub open spec fn wf(self) -> bool {
        self.knockback_vector.wf() && self.damage >= 1
    }

    /// A hitbox of one damage and no knockback.
    pub fn new() -> (r: Hitbox)
        ensures
            r.wf(),
            r.damage == 1,
            r.knockback_vector.is_zero(),
    {
        Hitbox { knockback_vector: Vec2::zero(), damage: 1 }
    }

    pub fn get_hitbox_damage(&self) -> (r: i64)
        ensures
            r == self.damage,
    {
        self.damage
    }
}

} // verus!
