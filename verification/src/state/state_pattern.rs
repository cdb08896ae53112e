//! The heroine with one state object per state.
//!
//! Each state is a small value that implements [`HeroineState`]; the heroine
//! holds the current one and hands every input and update on to it. A state
//! that wants to leave asks the heroine to `set_state`, which lets the new
//! state enter first.

use vstd::prelude::*;
use crate::state::{Graphic, Input};

verus! {

/// Upward velocity at the start of a jump.
pub const JUMP_VELOCITY: i32 = 10;

/// Updates spent ducking after which the charge goes off.
pub const MAX_CHARGE: u32 = 3;

#[derive(Debug, Clone, Copy, PartialEq, Eq, Structural)]
pub struct StandingState {}

#[derive(Debug, Clone, Copy, PartialEq, Eq, Structural)]
pub struct DuckingState {
    pub charge_time: u32,
}

#[derive(Debug, Clone, Copy, PartialEq, Eq, Structural)]
pub struct JumpState {}

#[derive(Debug, Clone, Copy, PartialEq, Eq, Structural)]
pub struct DivingState {}

/// The state that the heroine is in, with that state's own data.
#[derive(Debug, Clone, Copy, PartialEq, Eq, Structural)]
pub enum CurrentState {
    Standing(StandingState),
    Ducking(DuckingState),
    Jump(JumpState),
    Diving(DivingState),
}

/// Heroine herself.
#[derive(Debug)]
pub struct Heroine {
    y_velocity: i32,
    x_velocity: i32,
    graphic: Graphic,
    state: CurrentState,
}

/// All there is to a heroine, as plain values.
pub struct Pose {
    pub y_velocity: i32,
    pub x_velocity: i32,
    pub graphic: Graphic,
    pub state: CurrentState,
}

impl Pose {
    /// The pose once `state` has entered: every state sets its picture, and a
    /// jump sets the upward velocity too.
    pub open spec fn entered_by(self, state: CurrentState) -> Pose {
        match state {
            CurrentState::Standing(_) => Pose { graphic: Graphic::Stand, ..self },
            CurrentState::Ducking(_) => Pose { graphic: Graphic::Duck, ..self },
            CurrentState::Jump(_) => Pose {
                graphic: Graphic::Jump,
                y_velocity: JUMP_VELOCITY,
                ..self
            },
            CurrentState::Diving(_) => Pose { graphic: Graphic::Dive, ..self },
        }
    }

    /// The pose after a change of state: `state` enters, and is then the
    /// current one.
    pub open spec fn moved_to(self, state: CurrentState) -> Pose {
        Pose { state, ..self.entered_by(state) }
    }
}

impl View for Heroine {
    type V = Pose;

    closed spec fn view(&self) -> Pose {
        Pose {
            y_velocity: self.y_velocity,
            x_velocity: self.x_velocity,
            graphic: self.graphic,
            state: self.state,
        }
    }
}

/// What a state of the heroine does.
pub trait HeroineState: Sized {
    /// The state's name.
    spec fn name(&self) -> Seq<char>;

    /// The state that `input` leads to, if it leads anywhere.
    spec fn target(&self, input: Input) -> Option<CurrentState>;

    /// This state as the heroine holds it.
    spec fn held(&self) -> CurrentState;

    /// Whether one more update is within the state's counters.
    spec fn can_update(&self) -> bool;

    /// The state after one update.
    spec fn updated(&self) -> Self;

    fn state_name(&self) -> (name: String)
        ensures
            name@ == self.name(),
    ;

    /// Leaves for the state that `input` leads to, or does nothing.
    fn handle_input(&mut self, heroine: &mut Heroine, input: Input)
        ensures
            *final(self) == *old(self),
            final(heroine)@ == match old(self).target(input) {
                Some(next) => old(heroine)@.moved_to(next),
                None => old(heroine)@,
            },
    ;

    fn update(&mut self, heroine: &mut Heroine)
        requires
            old(self).can_update(),
        ensures
            *final(self) == old(self).updated(),
            final(heroine)@ == old(heroine)@,
    ;

    fn enter(&mut self, heroine: &mut Heroine)
        ensures
            *final(self) == *old(self),
            final(heroine)@ == old(heroine)@.entered_by(old(self).held()),
    ;
}

impl Heroine {
    /// A heroine who stands still.
    pub fn new() -> (heroine: Heroine)
        ensures
            heroine@ == (Pose {
                y_velocity: 0,
                x_velocity: 0,
                graphic: Graphic::Stand,
                state: CurrentState::Standing(StandingState {  }),
            }),
    {
        Heroine {
            state: CurrentState::Standing(StandingState::new()),
            y_velocity: 0,
            x_velocity: 0,
            graphic: Graphic::Stand,
        }
    }

    /// Hands `input` to the current state.
    pub fn handle_input(&mut self, input: Input)
        ensures
            final(self)@ == match old(self)@.state.target(input) {
                Some(next) => old(self)@.moved_to(next),
                None => old(self)@,
            },
    {
        let mut state = self.state;
        state.handle_input(self, input);
    }

    /// Lets the current state update itself.
    pub fn update(&mut self)
        requires
            old(self)@.state.can_update(),
        ensures
            final(self)@ == (Pose { state: old(self)@.state.updated(), ..old(self)@ }),
    {
        let mut state = self.state;
        state.update(self);
        self.state = state;
    }

    /// Changes to `state`, which enters first.
    pub fn set_state(&mut self, state: CurrentState)
        ensures
            final(self)@ == old(self)@.moved_to(state),
    {
        let mut state = state;
        assert(state.held() == state);
        state.enter(self);
        self.state = state;
    }

    pub fn set_y_vel(&mut self, vel: i32)
        ensures
            final(self)@ == (Pose { y_velocity: vel, ..old(self)@ }),
    {
        self.y_velocity = vel;
    }

    pub fn set_x_vel(&mut self, vel: i32)
        ensures
            final(self)@ == (Pose { x_velocity: vel, ..old(self)@ }),
    {
        self.x_velocity = vel;
    }

    pub fn set_graphic(&mut self, graphic: Graphic)
        ensures
            final(self)@ == (Pose { graphic, ..old(self)@ }),
    {
        self.graphic = graphic;
    }

    /// The current state.
    pub fn state(&self) -> (state: CurrentState)
        ensures
            state == self@.state,
    {
        self.state
    }

    /// The picture that shows the heroine.
    pub fn graphic(&self) -> (graphic: Graphic)
        ensures
            graphic == self@.graphic,
    {
        self.graphic
    }

    /// The upward velocity.
    pub fn y_velocity(&self) -> (vel: i32)
        ensures
            vel == self@.y_velocity,
    {
        self.y_velocity
    }

    /// The sideways velocity.
    pub fn x_velocity(&self) -> (vel: i32)
        ensures
            vel == self@.x_velocity,
    {
        self.x_velocity
    }
}

impl Default for Heroine {
    fn default() -> (heroine: Heroine)
        ensures
            heroine@ == (Pose {
                y_velocity: 0,
                x_velocity: 0,
                graphic: Graphic::Stand,
                state: CurrentState::Standing(StandingState {  }),
            }),
    {
        Heroine::new()
    }
}

impl StandingState {
    pub fn new() -> (state: StandingState)
        ensures
            state == (StandingState {  }),
    {
        StandingState {  }
    }
}

impl HeroineState for StandingState {
    open spec fn name(&self) -> Seq<char> {
        "StandingState"@
    }

    open spec fn target(&self, input: Input) -> Option<CurrentState> {
        match input {
            Input::PressB => Some(CurrentState::Jump(JumpState {  })),
            Input::PressDown => Some(CurrentState::Ducking(DuckingState { charge_time: 0 })),
            _ => None,
        }
    }

    open spec fn held(&self) -> CurrentState {
        CurrentState::Standing(*self)
    }

    open spec fn can_update(&self) -> bool {
        true
    }

    open spec fn updated(&self) -> Self {
        *self
    }

    fn enter(&mut self, heroine: &mut Heroine) {
        heroine.set_graphic(Graphic::Stand);
    }

    fn handle_input(&mut self, heroine: &mut Heroine, input: Input) {
        match input {
            Input::PressB => {
                heroine.set_state(CurrentState::Jump(JumpState::new()));
            },
            Input::PressDown => {
                heroine.set_state(CurrentState::Ducking(DuckingState::new()));
            },
            _ => {},
        }
    }

    fn update(&mut self, _heroine: &mut Heroine) {
    }

    fn state_name(&self) -> String {
        "StandingState".to_owned()
    }
}

impl DuckingState {
    pub fn new() -> (state: DuckingState)
        ensures
            state == (DuckingState { charge_time: 0 }),
    {
        DuckingState { charge_time: 0 }
    }
}

impl HeroineState for DuckingState {
    open spec fn name(&self) -> Seq<char> {
        "DuckingState"@
    }

    open spec fn target(&self, input: Input) -> Option<CurrentState> {
        match input {
            Input::ReleaseDown => Some(CurrentState::Standing(StandingState {  })),
            _ => None,
        }
    }

    open spec fn held(&self) -> CurrentState {
        CurrentState::Ducking(*self)
    }

    open spec fn can_update(&self) -> bool {
        self.charge_time < u32::MAX
    }

    /// The charge grows by one, and goes off, back to zero, once it has passed
    /// `MAX_CHARGE`.
    open spec fn updated(&self) -> Self {
        DuckingState {
            charge_time: if self.charge_time + 1 > MAX_CHARGE {
                0
            } else {
                (self.charge_time + 1) as u32
            },
        }
    }

    fn state_name(&self) -> String {
        "DuckingState".to_owned()
    }

    fn enter(&mut self, heroine: &mut Heroine) {
        heroine.set_graphic(Graphic::Duck)
    }

    fn handle_input(&mut self, heroine: &mut Heroine, input: Input) {
        if let Input::ReleaseDown = input {
            heroine.set_state(CurrentState::Standing(StandingState::new()));
        }
    }

    fn update(&mut self, _heroine: &mut Heroine) {
        self.charge_time += 1;
        if self.charge_time > MAX_CHARGE {
            self.charge_time = 0;
        }
    }
}

impl JumpState {
    pub fn new() -> (state: JumpState)
        ensures
            state == (JumpState {  }),
    {
        JumpState {  }
    }
}

impl HeroineState for JumpState {
    open spec fn name(&self) -> Seq<char> {
        "JumpState"@
    }

    open spec fn target(&self, input: Input) -> Option<CurrentState> {
        match input {
            Input::PressDown => Some(CurrentState::Diving(DivingState {  })),
            _ => None,
        }
    }

    open spec fn held(&self) -> CurrentState {
        CurrentState::Jump(*self)
    }

    open spec fn can_update(&self) -> bool {
        true
    }

    open spec fn updated(&self) -> Self {
        *self
    }

    fn state_name(&self) -> String {
        "JumpState".to_owned()
    }

    fn enter(&mut self, heroine: &mut Heroine) {
        heroine.set_graphic(Graphic::Jump);
        heroine.set_y_vel(JUMP_VELOCITY);
    }

    fn handle_input(&mut self, heroine: &mut Heroine, input: Input) {
        if let Input::PressDown = input {
            heroine.set_state(CurrentState::Diving(DivingState::new()));
        }
    }

    fn update(&mut self, _heroine: &mut Heroine) {
    }
}

impl DivingState {
    pub fn new() -> (state: DivingState)
        ensures
            state == (DivingState {  }),
    {
        DivingState {  }
    }
}

impl HeroineState for DivingState {
    open spec fn name(&self) -> Seq<char> {
        "DivingState"@
    }

    open spec fn target(&self, input: Input) -> Option<CurrentState> {
        None
    }

    open spec fn held(&self) -> CurrentState {
        CurrentState::Diving(*self)
    }

    open spec fn can_update(&self) -> bool {
        true
    }

    open spec fn updated(&self) -> Self {
        *self
    }

    fn state_name(&self) -> String {
        "DivingState".to_owned()
    }

    fn handle_input(&mut self, _heroine: &mut Heroine, _input: Input) {
    }

    fn update(&mut self, _heroine: &mut Heroine) {
    }

    fn enter(&mut self, heroine: &mut Heroine) {
        heroine.set_graphic(Graphic::Dive);
    }
}

/// The current state does whatever the state that it holds does.
impl HeroineState for CurrentState {
    open spec fn name(&self) -> Seq<char> {
        match self {
            CurrentState::Standing(state) => state.name(),
            CurrentState::Ducking(state) => state.name(),
            CurrentState::Jump(state) => state.name(),
            CurrentState::Diving(state) => state.name(),
        }
    }

    open spec fn target(&self, input: Input) -> Option<CurrentState> {
        match self {
            CurrentState::Standing(state) => state.target(input),
            CurrentState::Ducking(state) => state.target(input),
            CurrentState::Jump(state) => state.target(input),
            CurrentState::Diving(state) => state.target(input),
        }
    }

    open spec fn held(&self) -> CurrentState {
        *self
    }

    open spec fn can_update(&self) -> bool {
        match self {
            CurrentState::Standing(state) => state.can_update(),
            CurrentState::Ducking(state) => state.can_update(),
            CurrentState::Jump(state) => state.can_update(),
            CurrentState::Diving(state) => state.can_update(),
        }
    }

    open spec fn updated(&self) -> Self {
        match self {
            CurrentState::Standing(state) => CurrentState::Standing(state.updated()),
            CurrentState::Ducking(state) => CurrentState::Ducking(state.updated()),
            CurrentState::Jump(state) => CurrentState::Jump(state.updated()),
            CurrentState::Diving(state) => CurrentState::Diving(state.updated()),
        }
    }

    fn state_name(&self) -> String {
        match self {
            CurrentState::Standing(state) => state.state_name(),
            CurrentState::Ducking(state) => state.state_name(),
            CurrentState::Jump(state) => state.state_name(),
            CurrentState::Diving(state) => state.state_name(),
        }
    }

    fn handle_input(&mut self, heroine: &mut Heroine, input: Input) {
        match *self {
            CurrentState::Standing(mut state) => state.handle_input(heroine, input),
            CurrentState::Ducking(mut state) => state.handle_input(heroine, input),
            CurrentState::Jump(mut state) => state.handle_input(heroine, input),
            CurrentState::Diving(mut state) => state.handle_input(heroine, input),
        }
    }

    fn update(&mut self, heroine: &mut Heroine) {
        match *self {
            CurrentState::Standing(mut state) => {
                state.update(heroine);
                *self = CurrentState::Standing(state);
            },
            CurrentState::Ducking(mut state) => {
                state.update(heroine);
                *self = CurrentState::Ducking(state);
            },
            CurrentState::Jump(mut state) => {
                state.update(heroine);
                *self = CurrentState::Jump(state);
            },
            CurrentState::Diving(mut state) => {
                state.update(heroine);
                *self = CurrentState::Diving(state);
            },
        }
    }

    fn enter(&mut self, heroine: &mut Heroine) {
        assert(self.held() == *self);
        match *self {
            CurrentState::Standing(mut state) => state.enter(heroine),
            CurrentState::Ducking(mut state) => state.enter(heroine),
            CurrentState::Jump(mut state) => state.enter(heroine),
            CurrentState::Diving(mut state) => state.enter(heroine),
        }
    }
}

} // verus!
