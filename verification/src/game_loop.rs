//! Game loop pattern: the game is updated in steps of a fixed length, however
//! long a frame took; time that is left over is carried into the next frame.

use vstd::prelude::*;

verus! {

/// Length of one update step, in milliseconds.
pub const MS_PER_UPDATE: u64 = 16;

/// Length of one update step, in nanoseconds.
pub const NANOS_PER_UPDATE: u64 = MS_PER_UPDATE * 1_000_000;

/// What one turn of the loop comes to.
#[derive(Debug, Clone, Copy, PartialEq, Eq, Structural)]
pub struct Frame {
    /// How many update steps the game has to make.
    pub updates: u64,
    /// Time not yet played, carried into the next turn; handed to rendering.
    pub lag: u64,
}

/// One turn of the loop. `lag` is the time carried over from the turn before
/// and `elapsed` the time since then, both in nanoseconds. The game makes as
/// many whole update steps as fit into their sum, and carries the rest.
pub fn game_loop(lag: u64, elapsed: u64) -> (frame: Frame)
    requires
        lag + elapsed <= u64::MAX,
    ensures
        frame.updates == (lag + elapsed) / (NANOS_PER_UPDATE as int),
        frame.lag == (lag + elapsed) % (NANOS_PER_UPDATE as int),
{
    assert(NANOS_PER_UPDATE == 16_000_000);
    let mut lag: u64 = lag + elapsed;
    let mut updates: u64 = 0;
    let ghost total = lag;
    while lag >= NANOS_PER_UPDATE
        invariant
            updates * 16_000_000 + lag == total,
        decreases lag,
    {
        updates = updates + 1;
        lag = lag - NANOS_PER_UPDATE;
    }
    Frame { updates, lag }
}

} // verus!
