//! The zone in which an enemy notices the player. It remembers the name of
//! the last body that entered it, until that body leaves.
use vstd::prelude::*;

verus! {

/// The node name that marks the player.
pub open spec fn player_node_name() -> Seq<char> {
    seq!['P', 'l', 'a', 'y', 'e', 'r']
}

pub struct PlayerDetectionZone {
    pub player_name: String,
}

impl PlayerDetectionZone {
    /// A zone with no body inside.
    pub fn new() -> (r: PlayerDetectionZone)
        ensures
            r.player_name@ == Seq::<char>::empty(),
    {
        PlayerDetectionZone { player_name: String::new() }
    }

    /// Whether the body inside is the player.
    pub fn can_see_player(&self) -> (r: bool)
        ensures
            r == (self.player_name@ == player_node_name()),
    {
        let player = "Player".to_owned();
        proof {
            reveal_strlit("Player");
            assert(player@ =~= player_node_name());
        }
        self.player_name == player
    }

    /// A body entered the zone.
    pub fn on_player_detection_zone_body_entered(&mut self, body_name: String)
        ensures
            final(self).player_name@ == body_name@,
    {
        self.player_name = body_name;
    }

    /// The body left the zone.
    pub fn on_player_detection_zone_body_exited(&mut self)
        ensures
            final(self).player_name@ == Seq::<char>::empty(),
    {
        self.player_name = String::new();
    }
}

} // verus!
