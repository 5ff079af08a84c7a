//! What the player asks for during one tick.

use vstd::prelude::*;

verus! {

/// The things a player can ask for.
#[derive(Clone, Copy, Debug, PartialEq, Eq, Structural)]
pub enum Action {
    MoveLeft,
    MoveRight,
    Jump,
}

/// One flag for each action.
#[derive(Clone, Copy, Debug, PartialEq, Eq, Structural)]
pub struct Actions {
    pub move_left: bool,
    pub move_right: bool,
    pub jump: bool,
}

impl Actions {
    /// The flag of `action`.
    pub open spec fn spec_contains(&self, action: Action) -> bool {
        match action {
            Action::MoveLeft => self.move_left,
            Action::MoveRight => self.move_right,
            Action::Jump => self.jump,
        }
    }

    /// No action at all.
    pub fn none() -> (actions: Actions)
        ensures
            actions == (Actions { move_left: false, move_right: false, jump: false }),
    {
        Actions { move_left: false, move_right: false, jump: false }
    }

    /// Reads the flag of `action`.
    #[verifier::when_used_as_spec(spec_contains)]
    pub fn contains(&self, action: Action) -> (set: bool)
        ensures
            set == self.spec_contains(action),
    {
        match action {
            Action::MoveLeft => self.move_left,
            Action::MoveRight => self.move_right,
            Action::Jump => self.jump,
        }
    }
}

/// The state of the controls as one tick sees it: the actions that are held
/// down, and those that went down since the tick before.
#[derive(Clone, Copy, Debug, PartialEq, Eq, Structural)]
pub struct Input {
    pub held: Actions,
    pub pressed: Actions,
}

impl Input {
    /// Whether `action` is held down.
    pub open spec fn spec_is_held(&self, action: Action) -> bool {
        self.held.contains(action)
    }

    /// Whether `action` went down since the tick before.
    pub open spec fn spec_just_pressed(&self, action: Action) -> bool {
        self.pressed.contains(action)
    }

    /// Controls that nobody touches.
    pub fn idle() -> (input: Input)
        ensures
            input.held == (Actions { move_left: false, move_right: false, jump: false }),
            input.pressed == (Actions { move_left: false, move_right: false, jump: false }),
    {
        Input { held: Actions::none(), pressed: Actions::none() }
    }

    /// Whether `action` is held down.
    #[verifier::when_used_as_spec(spec_is_held)]
    pub fn is_held(&self, action: Action) -> (held: bool)
        ensures
            held == self.spec_is_held(action),
    {
        self.held.contains(action)
    }

    /// Whether `action` went down since the tick before.
    #[verifier::when_used_as_spec(spec_just_pressed)]
    pub fn just_pressed(&self, action: Action) -> (pressed: bool)
        ensures
            pressed == self.spec_just_pressed(action),
    {
        self.pressed.contains(action)
    }
}

} // verus!
