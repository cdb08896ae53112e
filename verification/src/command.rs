//! Command pattern: a move of a unit as a value that can be kept, carried out
//! later, and undone.

use vstd::prelude::*;

pub mod player;

verus! {

/// Generic game unit that has its own 2D position.
#[derive(Debug, Clone, Copy, PartialEq, Eq, Structural)]
pub struct Unit {
    pub x: i32,
    pub y: i32,
}

impl Unit {
    fn move_to(&mut self, x: i32, y: i32)
        ensures
            *final(self) == (Unit { x, y }),
    {
        self.x = x;
        self.y = y;
    }
}

/// The command to put a unit at (`x`, `y`).
#[derive(Debug, Clone, Copy, PartialEq, Eq, Structural)]
pub struct MoveUnit {
    pub x: i32,
    pub y: i32,
}

impl MoveUnit {
    /// Carries the command out on `unit`.
    pub fn call(&self, unit: &mut Unit)
        ensures
            *final(unit) == (Unit { x: self.x, y: self.y }),
    {
        unit.move_to(self.x, self.y);
    }
}

/// Returns two commands: one that moves a unit to (`x`, `y`), and one that
/// undoes that by moving it back to where `unit` is now.
pub fn make_move_unit_cmd(unit: &Unit, x: i32, y: i32) -> (cmds: (MoveUnit, MoveUnit))
    ensures
        cmds.0 == (MoveUnit { x, y }),
        cmds.1 == (MoveUnit { x: unit.x, y: unit.y }),
{
    let Unit { x: last_x, y: last_y } = *unit;
    (MoveUnit { x, y }, MoveUnit { x: last_x, y: last_y })
}

} // verus!
