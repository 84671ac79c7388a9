//! The commands sent to a display surface's single consumer.
use vstd::prelude::*;

use crate::button::ButtonId;
use crate::controllers::{DisplayState, Icon};

verus! {

/// An instruction on a display dispatcher channel; each surface applies them
/// in the order they were sent.
pub enum DisplayCommand {
    Started,
    /// Render a device: its state, its icon, the surface position, its name.
    DisplayState(DisplayState, Icon, u32, String),
    DisplayNone(u32),
    BlankAll,
    UnBlankAll,
    ButtonPressed(ButtonId),
    ButtonReleased(ButtonId),
    ShowPage(u32),
}

} // verus!
