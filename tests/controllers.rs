use robotica_remote::controllers::{
    display_state_of_status, Action, CommonConfig, Controller, ControllerKind, DisplayState, Icon,
    LABEL_POWER,
};

fn config(action: Action) -> CommonConfig {
    CommonConfig {
        name: "Kitchen light".to_string(),
        location: "kitchen".to_string(),
        device: "light1".to_string(),
        action,
        icon: Icon::Light,
    }
}

#[test]
fn kitchen_light_toggle_scenario() {
    let mut c = Controller::new(config(Action::Toggle), ControllerKind::Lights);
    assert_eq!(c.get_display_state(), DisplayState::Unknown);
    c.process_message(LABEL_POWER, "{\"state\":\"on\"}".to_string());
    assert_eq!(c.get_display_state(), DisplayState::On);
    let commands = c.get_press_commands();
    assert_eq!(commands.len(), 1);
    assert_eq!(commands[0].get_topic(), "command/kitchen/light1");
    assert_eq!(commands[0].get_message(), "{\"action\":\"turn_off\"}");
    c.process_disconnected();
    assert_eq!(c.get_display_state(), DisplayState::Unknown);
}

#[test]
fn toggle_from_unknown_turns_on() {
    let c = Controller::new(config(Action::Toggle), ControllerKind::Lights);
    let commands = c.get_press_commands();
    assert_eq!(commands[0].get_message(), "{\"action\":\"turn_on\"}");
}

#[test]
fn fixed_actions_ignore_state() {
    let mut on = Controller::new(config(Action::TurnOn), ControllerKind::Switch);
    on.process_message(LABEL_POWER, "{\"state\":\"on\"}".to_string());
    assert_eq!(on.get_press_commands()[0].get_message(), "{\"action\":\"turn_on\"}");
    let off = Controller::new(config(Action::TurnOff), ControllerKind::Switch);
    assert_eq!(off.get_press_commands()[0].get_message(), "{\"action\":\"turn_off\"}");
}

#[test]
fn press_commands_are_pure() {
    let mut c = Controller::new(config(Action::Toggle), ControllerKind::Lights);
    c.process_message(LABEL_POWER, "{\"state\":\"off\"}".to_string());
    let a = c.get_press_commands();
    let b = c.get_press_commands();
    assert_eq!(a[0].get_topic(), b[0].get_topic());
    assert_eq!(a[0].get_message(), b[0].get_message());
    assert_eq!(c.get_display_state(), DisplayState::Off);
}

#[test]
fn status_payloads_map_to_states() {
    let mut c = Controller::new(config(Action::Toggle), ControllerKind::Lights);
    c.process_message(LABEL_POWER, "{\"state\":\"on_other\"}".to_string());
    assert_eq!(c.get_display_state(), DisplayState::OnOther);
    c.process_message(LABEL_POWER, "{\"state\":\"hard_off\"}".to_string());
    assert_eq!(c.get_display_state(), DisplayState::HardOff);
    c.process_message(LABEL_POWER, "{\"state\":\"off\", \"level\": 3}".to_string());
    assert_eq!(c.get_display_state(), DisplayState::Off);
}

#[test]
fn malformed_payloads_give_error() {
    let mut c = Controller::new(config(Action::Toggle), ControllerKind::Lights);
    c.process_message(LABEL_POWER, "not json".to_string());
    assert_eq!(c.get_display_state(), DisplayState::Error);
    c.process_message(LABEL_POWER, "{\"state\":\"on\"}".to_string());
    c.process_message(LABEL_POWER, "{\"state\":1}".to_string());
    assert_eq!(c.get_display_state(), DisplayState::Error);
    c.process_message(LABEL_POWER, "{\"power\":\"on\"}".to_string());
    assert_eq!(c.get_display_state(), DisplayState::Error);
    c.process_message(LABEL_POWER, "{\"state\":\"dim\"}".to_string());
    assert_eq!(c.get_display_state(), DisplayState::Error);
}

#[test]
fn switch_knows_only_on_and_off() {
    let mut c = Controller::new(config(Action::Toggle), ControllerKind::Switch);
    c.process_message(LABEL_POWER, "{\"state\":\"on_other\"}".to_string());
    assert_eq!(c.get_display_state(), DisplayState::Error);
    c.process_message(LABEL_POWER, "{\"state\":\"on\"}".to_string());
    assert_eq!(c.get_display_state(), DisplayState::On);
}

#[test]
fn other_labels_are_ignored() {
    let mut c = Controller::new(config(Action::Toggle), ControllerKind::Lights);
    c.process_message(LABEL_POWER + 1, "{\"state\":\"on\"}".to_string());
    assert_eq!(c.get_display_state(), DisplayState::Unknown);
}

#[test]
fn disconnect_resets_every_state() {
    let mut c = Controller::new(config(Action::Toggle), ControllerKind::Lights);
    for payload in ["{\"state\":\"on\"}", "{\"state\":\"hard_off\"}", "bad"] {
        c.process_message(LABEL_POWER, payload.to_string());
        c.process_disconnected();
        assert_eq!(c.get_display_state(), DisplayState::Unknown);
    }
}

#[test]
fn subscription_topic_and_icon() {
    let c = Controller::new(config(Action::Toggle), ControllerKind::Lights);
    let subs = c.get_subscriptions();
    assert_eq!(subs.len(), 1);
    assert_eq!(subs[0].topic, "state/kitchen/light1/power");
    assert_eq!(subs[0].label, LABEL_POWER);
    assert_eq!(c.get_icon(), Icon::Light);
}

#[test]
fn status_strings() {
    assert_eq!(display_state_of_status(ControllerKind::Lights, Some("on")), DisplayState::On);
    assert_eq!(display_state_of_status(ControllerKind::Lights, Some("off")), DisplayState::Off);
    assert_eq!(display_state_of_status(ControllerKind::Lights, None), DisplayState::Error);
    assert_eq!(display_state_of_status(ControllerKind::Switch, Some("hard_off")), DisplayState::Error);
}
