//! The closed set of messages that drive the application: everything that
//! can happen is translated into one of these values and pushed onto the
//! shared action queue.

use vstd::prelude::*;

verus! {

/// A discrete event consumed by components to advance their state.
/// Immutable once created; a value has no identity beyond its variant.
#[derive(Clone, Copy, Debug, PartialEq, Eq, Structural)]
pub enum Action {
    /// A timer tick.
    Tick,
    /// A request to render the next frame.
    Render,
    /// Advance the application mode to its successor.
    Switch,
    /// Shut the application down.
    Quit,
}

impl Action {
    /// A short human-readable name, used by the presentation layer when the
    /// available key bindings are listed.
    pub fn name(&self) -> (r: &'static str)
        ensures
            *self == Action::Tick ==> r@ == "Tick"@,
            *self == Action::Render ==> r@ == "Render"@,
            *self == Action::Switch ==> r@ == "Switch"@,
            *self == Action::Quit ==> r@ == "Quit"@,
    {
        match *self {
            Action::Tick => "Tick",
            Action::Render => "Render",
            Action::Switch => "Switch",
            Action::Quit => "Quit",
        }
    }
}

} // verus!
