//! The radial-basis-function demo: the two parameters `u` and `v` that scale the
//! sampled field, the widget that draws it, and the application that forwards
//! its sliders to the widget.
use vstd::prelude::*;

verus! {

/// The widget state of the demo: the parameters with which the field is drawn.
pub struct RBF<T> {
    u: T,
    v: T,
}

impl<T: Copy> RBF<T> {
    pub fn new(u: T, v: T) -> (widget: RBF<T>)
        ensures
            widget.parameters() == (u, v),
    {
        RBF { u, v }
    }

    pub closed spec fn parameters(&self) -> (T, T) {
        (self.u, self.v)
    }

    pub fn u(&self) -> (u: T)
        ensures
            u == self.parameters().0,
    {
        self.u
    }

    pub fn v(&self) -> (v: T)
        ensures
            v == self.parameters().1,
    {
        self.v
    }

    /// Takes in new parameters `(u, v)`.
    pub fn poke(&mut self, value: (T, T))
        ensures
            final(self).parameters() == value,
    {
        self.u = value.0;
        self.v = value.1;
    }
}

/// What a slider of the demo announces.
#[derive(Clone, Copy, Debug)]
pub enum Action<T> {
    SetU(T),
    SetV(T),
}

/// The parameters the demo application holds.
#[derive(Clone, Copy, Debug)]
pub struct AppState<T> {
    pub u: T,
    pub v: T,
}

/// The state after an action.
pub open spec fn next_state<T>(state: AppState<T>, action: Action<T>) -> AppState<T> {
    match action {
        Action::SetU(u) => AppState { u: u, ..state },
        Action::SetV(v) => AppState { v: v, ..state },
    }
}

impl<T: Copy> AppState<T> {
    pub fn new(u: T, v: T) -> (state: AppState<T>)
        ensures
            state == (AppState { u, v }),
    {
        AppState { u, v }
    }

    /// Takes in an action and returns the parameters to poke into the widget:
    /// both of them, as the state now holds them.
    pub fn handle(&mut self, action: Action<T>) -> (payload: (T, T))
        ensures
            *final(self) == next_state(*old(self), action),
            payload == (final(self).u, final(self).v),
    {
        match action {
            Action::SetU(u) => self.u = u,
            Action::SetV(v) => self.v = v,
        }
        (self.u, self.v)
    }
}

/// Each slider action sets its own parameter to the slider's value.
pub proof fn lemma_action_sets_its_parameter<T>(state: AppState<T>, action: Action<T>)
    ensures
        action matches Action::SetU(u) ==> next_state(state, action) == (AppState { u: u, v: state.v }),
        action matches Action::SetV(v) ==> next_state(state, action) == (AppState { u: state.u, v: v }),
{
}

/// A slider action changes only its own parameter, and taking the same action
/// in twice leaves the state as taking it in once.
pub proof fn lemma_action_changes_its_parameter<T>(state: AppState<T>, action: Action<T>)
    ensures
        action is SetU ==> next_state(state, action).v == state.v,
        action is SetV ==> next_state(state, action).u == state.u,
        next_state(next_state(state, action), action) == next_state(state, action),
{
}

} // verus!
