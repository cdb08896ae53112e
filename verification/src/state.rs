//! State pattern: a heroine who stands, ducks, jumps and dives.
//!
//! Two renditions share the inputs and graphics defined here: a plain finite
//! state machine over an enum, and one state object per state.

use vstd::prelude::*;

pub mod finite_state_machine;
pub mod state_pattern;

verus! {

/// What the player did.
#[derive(Debug, Clone, Copy, PartialEq, Eq, Structural)]
pub enum Input {
    PressB,
    _ReleaseB,
    PressDown,
    ReleaseDown,
}

impl Default for Input {
    fn default() -> (input: Input)
        ensures
            input == Input::PressB,
    {
        Input::PressB
    }
}

/// The picture that shows the heroine.
#[derive(Debug, Clone, Copy, PartialEq, Eq, Structural)]
pub enum Graphic {
    Jump,
    Duck,
    Stand,
    Dive,
}

impl Default for Graphic {
    fn default() -> (graphic: Graphic)
        ensures
            graphic == Graphic::Stand,
    {
        Graphic::Stand
    }
}

} // verus!
