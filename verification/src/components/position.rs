use vstd::prelude::*;

verus! {

pub const POSITION_FILE_ID: &'static str = "position";

/// Where an entity stands, in whole pixels.
#[derive(Debug, Clone, Copy, PartialEq, Eq, Structural)]
pub struct Position {
    pub x: u16,
    pub y: u16,
}

impl Position {
    /// The component that this loader yields: the position itself.
    pub fn load_component(self) -> (component: Position)
        ensures
            component == self,
    {
        self
    }
}

} // verus!
