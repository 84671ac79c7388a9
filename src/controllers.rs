//! Per-device controllers: a small display-state machine driven by confirmed
//! remote state, and the commands that a button press sends.
use vstd::prelude::*;

use crate::json::{is_unescaped_json_char, json_member_string, quote_json, string_member};

verus! {

/// Opaque token that tells a controller which of its subscriptions a
/// received datum came from.
pub type Label = u32;

/// Label of the subscription to a device's power state.
pub const LABEL_POWER: Label = 0;

/// What a press asks of the device.
#[derive(Clone, Copy, Debug, PartialEq, Eq, Structural)]
pub enum Action {
    TurnOn,
    TurnOff,
    Toggle,
}

/// The rendered status of one logical device.
#[derive(Clone, Copy, Debug, PartialEq, Eq, Structural)]
pub enum DisplayState {
    HardOff,
    Error,
    Unknown,
    On,
    Off,
    OnOther,
}

#[derive(Clone, Copy, Debug, PartialEq, Eq, Structural)]
pub enum Icon {
    Light,
    Fan,
}

/// The kinds of device that a controller can drive.
#[derive(Clone, Copy, Debug, PartialEq, Eq, Structural)]
pub enum ControllerKind {
    /// A light: on, off, on with another scene, or switched off at the wall.
    Lights,
    /// A plain switch: on or off.
    Switch,
}

/// A topic to subscribe to, with the label that its data will carry.
pub struct Subscription {
    pub topic: String,
    pub label: Label,
}

/// What every controller is configured with.
pub struct CommonConfig {
    pub name: String,
    pub location: String,
    pub device: String,
    pub action: Action,
    pub icon: Icon,
}

/// An outbound instruction: sent to `command/{location}/{device}`.
pub struct Command {
    location: String,
    device: String,
    message: String,
}

pub struct CommandView {
    pub location: Seq<char>,
    pub device: Seq<char>,
    pub message: Seq<char>,
}

impl View for Command {
    type V = CommandView;

    closed spec fn view(&self) -> CommandView {
        CommandView { location: self.location@, device: self.device@, message: self.message@ }
    }
}

/// `command/{location}/{device}`
pub open spec fn command_topic(location: Seq<char>, device: Seq<char>) -> Seq<char> {
    "command/"@ + location + "/"@ + device
}

/// `state/{location}/{device}/power`
pub open spec fn power_topic(location: Seq<char>, device: Seq<char>) -> Seq<char> {
    "state/"@ + location + "/"@ + device + "/power"@
}

/// `{"action":"turn_on"}` or `{"action":"turn_off"}`.
pub open spec fn command_message(turn_on: bool) -> Seq<char> {
    "{\"action\":"@ + seq!['"'] + (if turn_on { "turn_on"@ } else { "turn_off"@ }) + seq!['"']
        + "}"@
}

impl Command {
    pub fn get_topic(&self) -> (r: String)
        ensures
            r@ == command_topic(self@.location, self@.device),
    {
        let mut t = String::from_str("command/");
        t.append(self.location.as_str());
        t.append("/");
        t.append(self.device.as_str());
        t
    }

    pub fn get_message(&self) -> (r: String)
        ensures
            r@ == self@.message,
    {
        self.message.clone()
    }
}

/// The model of a controller: its configuration and its display state.
pub struct ControllerView {
    pub name: Seq<char>,
    pub location: Seq<char>,
    pub device: Seq<char>,
    pub action: Action,
    pub icon: Icon,
    pub kind: ControllerKind,
    pub state: DisplayState,
}

/// The controller of one logical device.
pub struct Controller {
    config: CommonConfig,
    kind: ControllerKind,
    state: DisplayState,
}

impl View for Controller {
    type V = ControllerView;

    closed spec fn view(&self) -> ControllerView {
        ControllerView {
            name: self.config.name@,
            location: self.config.location@,
            device: self.config.device@,
            action: self.config.action,
            icon: self.config.icon,
            kind: self.kind,
            state: self.state,
        }
    }
}

/// The display state that a device's reported status stands for; `None`
/// is a payload that could not be read.
pub open spec fn state_from_status(kind: ControllerKind, status: Option<Seq<char>>) -> DisplayState {
    match status {
        None => DisplayState::Error,
        Some(s) => if s == "on"@ {
            DisplayState::On
        } else if s == "off"@ {
            DisplayState::Off
        } else if kind == ControllerKind::Lights && s == "on_other"@ {
            DisplayState::OnOther
        } else if kind == ControllerKind::Lights && s == "hard_off"@ {
            DisplayState::HardOff
        } else {
            DisplayState::Error
        },
    }
}

/// The member of a status payload that holds the device's state.
pub open spec fn status_of_payload(payload: Seq<char>) -> Option<Seq<char>> {
    json_member_string(payload, "state"@)
}

/// One event in a controller's life: `None` for a lost connection,
/// `Some((label, payload))` for a received datum.
pub type ControllerEvent = Option<(Label, Seq<char>)>;

/// The controller after one event.
pub open spec fn step(c: ControllerView, e: ControllerEvent) -> ControllerView {
    match e {
        None => ControllerView { state: DisplayState::Unknown, ..c },
        Some((label, payload)) => if label == LABEL_POWER {
            ControllerView { state: state_from_status(c.kind, status_of_payload(payload)), ..c }
        } else {
            c
        },
    }
}

/// The controller after a sequence of events.
pub open spec fn run(c: ControllerView, events: Seq<ControllerEvent>) -> ControllerView
    decreases events.len(),
{
    if events.len() == 0 {
        c
    } else {
        step(run(c, events.drop_last()), events.last())
    }
}

/// Whether a press sends `turn_on` (else `turn_off`).
pub open spec fn press_turns_on(action: Action, state: DisplayState) -> bool {
    match action {
        Action::TurnOn => true,
        Action::TurnOff => false,
        Action::Toggle => state != DisplayState::On,
    }
}

/// The command that a press sends, as a function of the controller alone.
pub open spec fn press_command(c: ControllerView) -> CommandView {
    CommandView {
        location: c.location,
        device: c.device,
        message: command_message(press_turns_on(c.action, c.state)),
    }
}

fn copy_string(s: &String) -> (r: String)
    ensures
        r@ == s@,
{
    String::from_str(s.as_str())
}

/// The display state for a status string read from a payload (`None`: no
/// status could be read).
pub fn display_state_of_status(kind: ControllerKind, status: Option<&str>) -> (r: DisplayState)
    ensures
        r == state_from_status(
            kind,
            match status {
                Some(s) => Some(s@),
                None => None,
            },
        ),
{
    match status {
        None => DisplayState::Error,
        Some(s) => {
            let s = String::from_str(s);
            if s == String::from_str("on") {
                DisplayState::On
            } else if s == String::from_str("off") {
                DisplayState::Off
            } else if kind == ControllerKind::Lights && s == String::from_str("on_other") {
                DisplayState::OnOther
            } else if kind == ControllerKind::Lights && s == String::from_str("hard_off") {
                DisplayState::HardOff
            } else {
                DisplayState::Error
            }
        },
    }
}

impl Controller {
    /// A controller for the configured device; it shows `Unknown` until its
    /// first confirming message.
    pub fn new(config: CommonConfig, kind: ControllerKind) -> (r: Controller)
        ensures
            r@ == (ControllerView {
                name: config.name@,
                location: config.location@,
                device: config.device@,
                action: config.action,
                icon: config.icon,
                kind: kind,
                state: DisplayState::Unknown,
            }),
    {
        Controller { config, kind, state: DisplayState::Unknown }
    }

    pub fn get_subscriptions(&self) -> (r: Vec<Subscription>)
        ensures
            r@.len() == 1,
            r@[0].topic@ == power_topic(self@.location, self@.device),
            r@[0].label == LABEL_POWER,
    {
        let mut topic = String::from_str("state/");
        topic.append(self.config.location.as_str());
        topic.append("/");
        topic.append(self.config.device.as_str());
        topic.append("/power");
        let mut r: Vec<Subscription> = Vec::new();
        r.push(Subscription { topic, label: LABEL_POWER });
        r
    }

    /// The transport was lost: all that was known is void.
    pub fn process_disconnected(&mut self)
        ensures
            final(self)@ == step(old(self)@, None),
            final(self)@.state == DisplayState::Unknown,
    {
        self.state = DisplayState::Unknown;
    }

    /// A datum arrived on the subscription with `label`.
    pub fn process_message(&mut self, label: Label, data: String)
        ensures
            final(self)@ == step(old(self)@, Some((label, data@))),
    {
        if label == LABEL_POWER {
            let status = string_member(data.as_str(), "state");
            self.state = match status {
                Some(s) => display_state_of_status(self.kind, Some(s.as_str())),
                None => display_state_of_status(self.kind, None),
            };
        }
    }

    pub fn get_display_state(&self) -> (r: DisplayState)
        ensures
            r == self@.state,
    {
        self.state
    }

    /// The commands that a press sends now; the state is left as it is until
    /// the device confirms the change.
    pub fn get_press_commands(&self) -> (r: Vec<Command>)
        ensures
            r@.len() == 1,
            r@[0]@ == press_command(self@),
    {
        let turn_on = match self.config.action {
            Action::TurnOn => true,
            Action::TurnOff => false,
            Action::Toggle => self.state != DisplayState::On,
        };
        proof {
            reveal_strlit("turn_on");
            reveal_strlit("turn_off");
            reveal_strlit("{\"action\":");
            reveal_strlit("}");
            assert(forall|i: int| 0 <= i < "turn_on"@.len() ==> is_unescaped_json_char(#[trigger] "turn_on"@[i]));
            assert(forall|i: int| 0 <= i < "turn_off"@.len() ==> is_unescaped_json_char(#[trigger] "turn_off"@[i]));
        }
        let word = if turn_on {
            quote_json("turn_on")
        } else {
            quote_json("turn_off")
        };
        let mut message = String::from_str("{\"action\":");
        message.append(word.as_str());
        message.append("}");
        assert(message@ =~= command_message(turn_on));
        let command = Command {
            location: copy_string(&self.config.location),
            device: copy_string(&self.config.device),
            message,
        };
        let mut r: Vec<Command> = Vec::new();
        r.push(command);
        r
    }

    pub fn get_icon(&self) -> (r: Icon)
        ensures
            r == self@.icon,
    {
        self.config.icon
    }
}

/// A lost connection leaves the controller at `Unknown`, whatever it showed
/// before and whatever came earlier in its history.
pub proof fn lemma_disconnect_resets(c: ControllerView, events: Seq<ControllerEvent>, i: int)
    requires
        0 <= i < events.len(),
        events[i] is None,
    ensures
        run(c, events.take(i + 1)).state == DisplayState::Unknown,
{
    assert(events.take(i + 1).drop_last() =~= events.take(i));
}

/// Events change only the display state: the configuration stays as it was.
pub proof fn lemma_run_keeps_config(c: ControllerView, events: Seq<ControllerEvent>)
    ensures
        run(c, events) == (ControllerView { state: run(c, events).state, ..c }),
    decreases events.len(),
{
    if events.len() > 0 {
        lemma_run_keeps_config(c, events.drop_last());
    }
}

/// The commands of a press are a function of the controller's model: two
/// requests with no change in between give equal commands.
pub proof fn lemma_press_commands_pure(a: ControllerView, b: ControllerView)
    requires
        a == b,
    ensures
        press_command(a) == press_command(b),
{
}

} // verus!
