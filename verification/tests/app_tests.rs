use color_picker::hsl::WhichHSL;
use color_picker::picker_app::{Action, AppState, Poke};
use color_picker::rbf::{Action as RbfAction, AppState as RbfAppState, RBF};

fn describe(pokes: &[Poke<f64>]) -> Vec<(&'static str, f64)> {
    pokes
        .iter()
        .map(|p| match p {
            Poke::ColorGrid(WhichHSL::Hue(v)) => ("grid hue", *v),
            Poke::ColorGrid(WhichHSL::Saturation(v)) => ("grid saturation", *v),
            Poke::ColorGrid(WhichHSL::Luminosity(v)) => ("grid luminosity", *v),
            Poke::SaturationSlider(v) => ("saturation slider", *v),
            Poke::LuminositySlider(v) => ("luminosity slider", *v),
        })
        .collect()
}

#[test]
fn slider_actions_go_to_the_colour_box() {
    let mut app = AppState::new(0.5, 0.5, 0.5);
    assert_eq!(describe(&app.handle(Action::SetH(0.1))), vec![("grid hue", 0.1)]);
    assert_eq!(describe(&app.handle(Action::SetS(0.2))), vec![("grid saturation", 0.2)]);
    assert_eq!(describe(&app.handle(Action::SetL(0.3))), vec![("grid luminosity", 0.3)]);
    assert_eq!((app.h, app.s, app.l), (0.1, 0.2, 0.3));
}

#[test]
fn a_pick_goes_to_both_sliders() {
    let mut app = AppState::new(0.5, 0.5, 0.5);
    let pokes = app.handle(Action::SetSL(0.25, 0.75));
    assert_eq!(describe(&pokes), vec![("saturation slider", 0.25), ("luminosity slider", 0.75)]);
    assert_eq!((app.h, app.s, app.l), (0.5, 0.25, 0.75));
}

#[test]
fn handling_twice_is_handling_once() {
    let mut once = AppState::new(0.5, 0.5, 0.5);
    once.handle(Action::SetSL(0.1, 0.9));
    let mut twice = AppState::new(0.5, 0.5, 0.5);
    twice.handle(Action::SetSL(0.1, 0.9));
    twice.handle(Action::SetSL(0.1, 0.9));
    assert_eq!((once.h, once.s, once.l), (twice.h, twice.s, twice.l));
}

#[test]
fn rbf_widget_takes_its_parameters() {
    let mut w = RBF::new(1.0, 1.0);
    assert_eq!((w.u(), w.v()), (1.0, 1.0));
    w.poke((0.5, 2.0));
    assert_eq!((w.u(), w.v()), (0.5, 2.0));
}

#[test]
fn rbf_sliders_reach_the_widget() {
    let mut app = RbfAppState::new(1.0, 1.0);
    let mut w = RBF::new(1.0, 1.0);
    let payload = app.handle(RbfAction::SetU(0.25));
    assert_eq!(payload, (0.25, 1.0));
    w.poke(payload);
    let payload = app.handle(RbfAction::SetV(3.0));
    assert_eq!(payload, (0.25, 3.0));
    w.poke(payload);
    assert_eq!((w.u(), w.v()), (0.25, 3.0));
    assert_eq!((app.u, app.v), (0.25, 3.0));
}
