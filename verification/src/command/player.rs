//! The command in its plainest form: a move of the player, without undo.

use vstd::prelude::*;

verus! {

/// Our player character who we will be moving using our command.
#[derive(Debug, Clone, Copy, PartialEq, Eq, Structural)]
pub struct Player {
    pub x: i32,
    pub y: i32,
}

impl Player {
    fn move_to(&mut self, x: i32, y: i32)
        ensures
            *final(self) == (Player { x, y }),
    {
        self.x = x;
        self.y = y;
    }
}

/// The command to put the player at (`x`, `y`).
#[derive(Debug, Clone, Copy, PartialEq, Eq, Structural)]
pub struct MovePlayer {
    pub x: i32,
    pub y: i32,
}

impl MovePlayer {
    /// Carries the command out on `unit`.
    pub fn call(&self, unit: &mut Player)
        ensures
            *final(unit) == (Player { x: self.x, y: self.y }),
    {
        unit.move_to(self.x, self.y);
    }
}

/// Command pattern command.
pub fn make_move_unit_cmd(x: i32, y: i32) -> (cmd: MovePlayer)
    ensures
        cmd == (MovePlayer { x, y }),
{
    MovePlayer { x, y }
}

} // verus!
