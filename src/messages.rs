//! The messages carried by the shared message queue.
use vstd::prelude::*;

use crate::button::ButtonId;
use crate::controllers::Label;

verus! {

/// Everything that flows through the single message queue.
pub enum Message {
    MqttConnect,
    MqttDisconnect,
    /// A received datum: topic, payload and the label of the subscription.
    MqttReceived(String, String, Label),
    ButtonPress(ButtonId),
    ButtonRelease(ButtonId),
    BlankDisplays,
    DisplayPage(u32),
}

} // verus!
