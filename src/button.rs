//! Button event source: turns level changes of an input into messages.
use vstd::prelude::*;

use crate::messages::Message;

verus! {

/// Identity of an input source.
#[derive(Clone, Copy, Debug, PartialEq, Eq, Structural)]
pub enum ButtonId {
    /// A physical input, by its index.
    Physical(u32),
    /// A touch pad that stands for one controller, by its index.
    Controller(u32),
    PageUp,
    PageDown,
}

/// The level of an input line after a transition.
#[derive(Clone, Copy, Debug, PartialEq, Eq, Structural)]
pub enum Value {
    High,
    Low,
}

/// The message for one transition of the input `id`: a press on a rising
/// edge, a release on a falling one.
pub open spec fn edge_message(id: ButtonId, value: Value) -> Message {
    match value {
        Value::High => Message::ButtonPress(id),
        Value::Low => Message::ButtonRelease(id),
    }
}

/// The messages for a sequence of transitions, one each, in order.
pub open spec fn edge_messages(id: ButtonId, levels: Seq<Value>) -> Seq<Message> {
    levels.map_values(|v: Value| edge_message(id, v))
}

/// What the transition callback of input `id` puts on the message queue.
pub fn button_message(id: ButtonId, value: Value) -> (r: Message)
    ensures
        r == edge_message(id, value),
{
    match value {
        Value::High => Message::ButtonPress(id),
        Value::Low => Message::ButtonRelease(id),
    }
}

/// One input's transitions become exactly as many messages, in the same
/// order: press, release, press stays press, release, press.
pub proof fn lemma_edges_in_order(id: ButtonId, levels: Seq<Value>)
    ensures
        edge_messages(id, levels).len() == levels.len(),
        forall|i: int|
            0 <= i < levels.len() ==> #[trigger] edge_messages(id, levels)[i] == edge_message(
                id,
                levels[i],
            ),
        edge_messages(id, seq![Value::High, Value::Low, Value::High]) == seq![
            Message::ButtonPress(id),
            Message::ButtonRelease(id),
            Message::ButtonPress(id),
        ],
{
    assert(edge_messages(id, seq![Value::High, Value::Low, Value::High]) =~= seq![
        Message::ButtonPress(id),
        Message::ButtonRelease(id),
        Message::ButtonPress(id),
    ]);
}

} // verus!
