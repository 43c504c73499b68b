//! Application actions and the interface of a state holder.

use vstd::prelude::*;

verus! {

/// What a component asks of the application.
#[derive(Debug, Clone, PartialEq, Eq)]
pub enum Action {
    Quit,
    Cancel,
    Confirm,
    Custom(String),
}

/// A holder of application state that is moved on by messages.
pub trait StateManager {
    type Message;

    type State;

    /// Applies a message to the state.
    fn update(&mut self, msg: Self::Message);

    /// The state as it stands.
    fn current_state(&self) -> &Self::State;
}

} // verus!
