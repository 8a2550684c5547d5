//! A colour picker: the HSL picker and the radial-basis-function demo, with the
//! pixel buffers they paint and the state machines of their widgets.
use vstd::prelude::*;

pub mod hsl;
pub mod image;
pub mod picker_app;
pub mod rbf;

verus! {

} // verus!
