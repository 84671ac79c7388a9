//! Event-coordination core of a small home-automation remote: per-device
//! controllers driven by confirmed remote state, the button event source,
//! the interrupt-to-notification bridge for capacitive touch pads, and the
//! display command protocol.
use vstd::prelude::*;

pub mod badge;
pub mod button;
pub mod controllers;
pub mod display;
pub mod json;
pub mod leds;
pub mod messages;
pub mod registry;
pub mod touch;

verus! {

} // verus!
