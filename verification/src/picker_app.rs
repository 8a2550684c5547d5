//! The HSL picker application: what it holds (the colour being picked) and how
//! it answers each action that its widgets send, with the pokes it hands back to
//! the widgets so that they show the same colour.
use vstd::prelude::*;

use crate::hsl::WhichHSL;

verus! {

/// What a widget of the picker announces: a new hue, saturation or luminosity
/// from a slider, or a new saturation and luminosity from the colour box.
#[derive(Clone, Copy, Debug)]
pub enum Action<T> {
    SetH(T),
    SetS(T),
    SetL(T),
    SetSL(T, T),
}

/// A message the application sends to one of its widgets.
#[derive(Clone, Copy, Debug)]
pub enum Poke<T> {
    /// Tell the colour box about a channel.
    ColorGrid(WhichHSL<T>),
    /// Move the saturation slider.
    SaturationSlider(T),
    /// Move the luminosity slider.
    LuminositySlider(T),
}

/// The colour the application holds.
#[derive(Clone, Copy, Debug)]
pub struct AppState<T> {
    pub h: T,
    pub s: T,
    pub l: T,
}

/// The state after an action.
pub open spec fn next_state<T>(state: AppState<T>, action: Action<T>) -> AppState<T> {
    match action {
        Action::SetH(h) => AppState { h: h, ..state },
        Action::SetS(s) => AppState { s: s, ..state },
        Action::SetL(l) => AppState { l: l, ..state },
        Action::SetSL(s, l) => AppState { s: s, l: l, ..state },
    }
}

/// The pokes with which an action is answered: a slider's channel goes to the
/// colour box, a pick in the colour box goes to the saturation and luminosity sliders.
pub open spec fn pokes_for<T>(action: Action<T>) -> Seq<Poke<T>> {
    match action {
        Action::SetH(h) => seq![Poke::ColorGrid(WhichHSL::Hue(h))],
        Action::SetS(s) => seq![Poke::ColorGrid(WhichHSL::Saturation(s))],
        Action::SetL(l) => seq![Poke::ColorGrid(WhichHSL::Luminosity(l))],
        Action::SetSL(s, l) => seq![Poke::SaturationSlider(s), Poke::LuminositySlider(l)],
    }
}

/// A poke carries the value that the state holds for its channel.
pub open spec fn poke_agrees<T>(state: AppState<T>, poke: Poke<T>) -> bool {
    match poke {
        Poke::ColorGrid(WhichHSL::Hue(v)) => v == state.h,
        Poke::ColorGrid(WhichHSL::Saturation(v)) => v == state.s,
        Poke::ColorGrid(WhichHSL::Luminosity(v)) => v == state.l,
        Poke::SaturationSlider(v) => v == state.s,
        Poke::LuminositySlider(v) => v == state.l,
    }
}

impl<T: Copy> AppState<T> {
    pub fn new(h: T, s: T, l: T) -> (state: AppState<T>)
        ensures
            state == (AppState { h, s, l }),
    {
        AppState { h, s, l }
    }

    /// Takes in an action and returns the pokes, in order, that answer it.
    pub fn handle(&mut self, action: Action<T>) -> (pokes: Vec<Poke<T>>)
        ensures
            *final(self) == next_state(*old(self), action),
            pokes@ == pokes_for(action),
    {
        let mut pokes: Vec<Poke<T>> = Vec::new();
        match action {
            Action::SetH(h) => {
                self.h = h;
                pokes.push(Poke::ColorGrid(WhichHSL::Hue(h)));
            },
            Action::SetS(s) => {
                self.s = s;
                pokes.push(Poke::ColorGrid(WhichHSL::Saturation(s)));
            },
            Action::SetL(l) => {
                self.l = l;
                pokes.push(Poke::ColorGrid(WhichHSL::Luminosity(l)));
            },
            Action::SetSL(s, l) => {
                self.s = s;
                self.l = l;
                pokes.push(Poke::SaturationSlider(s));
                pokes.push(Poke::LuminositySlider(l));
            },
        }
        pokes
    }
}

/// Every poke that answers an action carries the value that the application
/// holds for that channel once the action is taken in: the widgets are told
/// what the application holds.
pub proof fn lemma_pokes_agree_with_state<T>(state: AppState<T>, action: Action<T>)
    ensures
        forall|i: int|
            0 <= i < pokes_for(action).len() ==> poke_agrees(
                next_state(state, action),
                #[trigger] pokes_for(action)[i],
            ),
{
}

/// Each action sets the channels it carries and keeps the others; a slider's
/// value is sent to the colour box under its own channel, and a pick in the
/// colour box is sent to the saturation slider, then the luminosity slider.
pub proof fn lemma_action_effects<T>(state: AppState<T>, action: Action<T>)
    ensures
        action matches Action::SetH(h) ==> next_state(state, action) == (AppState {
            h: h,
            s: state.s,
            l: state.l,
        }) && pokes_for(action) == seq![Poke::ColorGrid(WhichHSL::Hue(h))],
        action matches Action::SetS(s) ==> next_state(state, action) == (AppState {
            h: state.h,
            s: s,
            l: state.l,
        }) && pokes_for(action) == seq![Poke::ColorGrid(WhichHSL::Saturation(s))],
        action matches Action::SetL(l) ==> next_state(state, action) == (AppState {
            h: state.h,
            s: state.s,
            l: l,
        }) && pokes_for(action) == seq![Poke::ColorGrid(WhichHSL::Luminosity(l))],
        action matches Action::SetSL(s, l) ==> next_state(state, action) == (AppState {
            h: state.h,
            s: s,
            l: l,
        }) && pokes_for(action) == seq![Poke::SaturationSlider(s), Poke::LuminositySlider(l)],
{
}

/// Taking in the same action twice leaves the state as taking it in once.
pub proof fn lemma_action_idempotent<T>(state: AppState<T>, action: Action<T>)
    ensures
        next_state(next_state(state, action), action) == next_state(state, action),
{
}

/// An action changes only the channels it names.
pub proof fn lemma_action_keeps_other_channels<T>(state: AppState<T>, action: Action<T>)
    ensures
        !(action is SetH) ==> next_state(state, action).h == state.h,
        (action is SetH) ==> next_state(state, action).s == state.s && next_state(state, action).l
            == state.l,
        (action is SetS) ==> next_state(state, action).l == state.l,
        (action is SetL) ==> next_state(state, action).s == state.s,
{
}

} // verus!
