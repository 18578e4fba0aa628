use vstd::prelude::*;

verus! {

pub const PLAYER_CONTROL_FILE_ID: &'static str = "player_control";

/// Marks the entity that the player steers. It holds nothing.
#[derive(Debug, Clone, Copy, PartialEq, Eq, Structural)]
pub struct PlayerControl {}

impl PlayerControl {
    /// The component that this loader yields: a fresh marker.
    pub fn load_component(self) -> (component: PlayerControl)
        ensures
            component == (PlayerControl {  }),
    {
        PlayerControl {  }
    }
}

} // verus!
