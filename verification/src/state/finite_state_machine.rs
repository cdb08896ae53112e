//! The heroine as a finite state machine: one enum, one `match`.

use vstd::prelude::*;
use crate::state::{Graphic, Input};

verus! {

/// Upward velocity at the start of a jump.
pub const JUMP_VELOCITY: i32 = 10;

/// Updates spent ducking after which the charge goes off.
pub const MAX_CHARGE: u32 = 3;

#[derive(Debug, Clone, Copy, PartialEq, Eq, Structural)]
pub enum State {
    Jumping,
    Standing,
    Ducking,
    Diving,
}

impl Default for State {
    fn default() -> (state: State)
        ensures
            state == State::Standing,
    {
        State::Standing
    }
}

#[derive(Debug)]
pub struct Heroine {
    pub state: State,
    pub graphic: Graphic,
    pub y_velocity: i32,
    pub charge_time: u32,
}

impl Default for Heroine {
    fn default() -> (heroine: Heroine)
        ensures
            heroine == (Heroine {
                state: State::Standing,
                graphic: Graphic::Stand,
                y_velocity: 0,
                charge_time: 0,
            }),
    {
        Heroine {
            state: State::default(),
            graphic: Graphic::default(),
            y_velocity: 0,
            charge_time: 0,
        }
    }
}

impl Heroine {
    /// The state that `input` leads to from `state`. Standing, B jumps and down
    /// ducks; jumping, down dives; ducking, releasing down stands up. Every
    /// other pair stays where it is.
    pub open spec fn next_state(state: State, input: Input) -> State {
        match (state, input) {
            (State::Standing, Input::PressB) => State::Jumping,
            (State::Standing, Input::PressDown) => State::Ducking,
            (State::Jumping, Input::PressDown) => State::Diving,
            (State::Ducking, Input::ReleaseDown) => State::Standing,
            _ => state,
        }
    }

    /// The picture that goes with a state.
    pub open spec fn graphic_of(state: State) -> Graphic {
        match state {
            State::Jumping => Graphic::Jump,
            State::Standing => Graphic::Stand,
            State::Ducking => Graphic::Duck,
            State::Diving => Graphic::Dive,
        }
    }

    /// The heroine after `input`. Where the state changes, the picture follows
    /// it; a jump sets the upward velocity, and ducking starts the charge anew.
    pub open spec fn after_input(self, input: Input) -> Heroine {
        let next = Self::next_state(self.state, input);
        if next == self.state {
            self
        } else {
            Heroine {
                state: next,
                graphic: Self::graphic_of(next),
                y_velocity: if next == State::Jumping {
                    JUMP_VELOCITY
                } else {
                    self.y_velocity
                },
                charge_time: if next == State::Ducking {
                    0
                } else {
                    self.charge_time
                },
            }
        }
    }

    /// The heroine after one update: while she ducks the charge grows by one,
    /// and goes off, back to zero, once it has passed `MAX_CHARGE`.
    pub open spec fn after_update(self) -> Heroine {
        if self.state == State::Ducking {
            Heroine {
                charge_time: if self.charge_time + 1 > MAX_CHARGE {
                    0
                } else {
                    (self.charge_time + 1) as u32
                },
                ..self
            }
        } else {
            self
        }
    }

    pub fn new() -> (heroine: Heroine)
        ensures
            heroine == (Heroine {
                state: State::Standing,
                graphic: Graphic::Stand,
                y_velocity: 0,
                charge_time: 0,
            }),
    {
        Heroine { state: State::Standing, graphic: Graphic::Stand, charge_time: 0, y_velocity: 0 }
    }

    fn set_graphics(&mut self, graphic: Graphic)
        ensures
            *final(self) == (Heroine { graphic, ..*old(self) }),
    {
        self.graphic = graphic;
    }

    fn super_bomb(&mut self)
        ensures
            *final(self) == (Heroine { charge_time: 0, ..*old(self) }),
    {
        self.charge_time = 0;
    }

    pub fn update(&mut self)
        requires
            old(self).state == State::Ducking ==> old(self).charge_time < u32::MAX,
        ensures
            *final(self) == old(self).after_update(),
    {
        if let State::Ducking = self.state {
            self.charge_time += 1;
            if self.charge_time > MAX_CHARGE {
                self.super_bomb();
            }
        }
    }

    pub fn handle_input(&mut self, input: Input)
        ensures
            *final(self) == old(self).after_input(input),
    {
        match self.state {
            State::Standing => {
                match input {
                    Input::PressB => {
                        self.state = State::Jumping;
                        self.y_velocity = JUMP_VELOCITY;
                        self.set_graphics(Graphic::Jump);
                    },
                    Input::PressDown => {
                        self.state = State::Ducking;
                        self.charge_time = 0;
                        self.set_graphics(Graphic::Duck);
                    },
                    _ => {},
                }
            },
            State::Jumping => {
                if let Input::PressDown = input {
                    self.state = State::Diving;
                    self.set_graphics(Graphic::Dive);
                }
            },
            State::Ducking => {
                if let Input::ReleaseDown = input {
                    self.state = State::Standing;
                    self.set_graphics(Graphic::Stand);
                }
            },
            _ => {},
        }
    }

    /// While the heroine ducks, a charge that is within `MAX_CHARGE` stays
    /// within it over any update, so updating can go on for ever.
    pub proof fn lemma_charge_stays_bounded(self)
        requires
            self.charge_time <= MAX_CHARGE,
        ensures
            self.after_update().charge_time <= MAX_CHARGE,
            self.after_update().state == self.state,
    {
    }

    /// Diving is final: no input leads out of it.
    pub proof fn lemma_diving_is_final(input: Input)
        ensures
            Self::next_state(State::Diving, input) == State::Diving,
    {
    }
}

} // verus!
