use light_control::buttons::{ButtonAction, ButtonMessage, ControllerButton};
use light_control::commands::{
    handle_button_press, ikea_switch_callback, phillips_switch_callback, Command, ControlCommand,
    Switch,
};
use light_control::lights::{
    LightCommand, LightState, Select, GET_MAIN_LIGHT_TOPIC, IKEA_SWITCH_TOPIC,
    PHILLIPS_SWITCH_TOPIC, SET_MAIN_LIGHT_TOPIC,
};

fn press(button: ControllerButton) -> ButtonMessage {
    ButtonMessage { action: ButtonAction::Press(button) }
}

fn release(button: ControllerButton) -> ButtonMessage {
    ButtonMessage { action: ButtonAction::Release(button) }
}

fn all_lights(state: LightState) -> Command {
    Command::Light(LightCommand { target_light: Select::All, target_state: state })
}

#[test]
fn ikea_names_decode_to_presses() {
    assert_eq!(ButtonAction::from_name("on"), Some(ButtonAction::Press(ControllerButton::On)));
    assert_eq!(ButtonAction::from_name("off"), Some(ButtonAction::Press(ControllerButton::Off)));
    assert_eq!(
        ButtonAction::from_name("arrow_left_click"),
        Some(ButtonAction::Press(ControllerButton::Left))
    );
    assert_eq!(
        ButtonAction::from_name("arrow_right_click"),
        Some(ButtonAction::Press(ControllerButton::Right))
    );
}

#[test]
fn phillips_names_decode_to_presses_and_releases() {
    assert_eq!(ButtonAction::from_name("on_press"), Some(ButtonAction::Press(ControllerButton::On)));
    assert_eq!(ButtonAction::from_name("off_press"), Some(ButtonAction::Press(ControllerButton::Off)));
    assert_eq!(ButtonAction::from_name("up_press"), Some(ButtonAction::Press(ControllerButton::Up)));
    assert_eq!(
        ButtonAction::from_name("down_press"),
        Some(ButtonAction::Press(ControllerButton::Down))
    );
    assert_eq!(
        ButtonAction::from_name("on_press_release"),
        Some(ButtonAction::Release(ControllerButton::On))
    );
    assert_eq!(
        ButtonAction::from_name("off_press_release"),
        Some(ButtonAction::Release(ControllerButton::Off))
    );
    assert_eq!(
        ButtonAction::from_name("up_press_release"),
        Some(ButtonAction::Release(ControllerButton::Up))
    );
    assert_eq!(
        ButtonAction::from_name("down_press_release"),
        Some(ButtonAction::Release(ControllerButton::Down))
    );
}

#[test]
fn action_names_ignore_case() {
    assert_eq!(ButtonAction::from_name("ON"), Some(ButtonAction::Press(ControllerButton::On)));
    assert_eq!(
        ButtonAction::from_name("Arrow_Left_Click"),
        Some(ButtonAction::Press(ControllerButton::Left))
    );
    assert_eq!(
        ButtonAction::from_name("DOWN_PRESS_RELEASE"),
        Some(ButtonAction::Release(ControllerButton::Down))
    );
}

#[test]
fn lowercase_names_are_matched_exactly() {
    assert_eq!(ButtonAction::from_lowercase_name("ON"), None);
    assert_eq!(
        ButtonAction::from_lowercase_name("on"),
        Some(ButtonAction::Press(ControllerButton::On))
    );
}

#[test]
fn unknown_action_names_are_refused() {
    assert_eq!(ButtonAction::from_name(""), None);
    assert_eq!(ButtonAction::from_name("brightness_move_up"), None);
    assert_eq!(ButtonAction::from_name(" on"), None);
    assert_eq!(ButtonAction::from_name("on_"), None);
}

#[test]
fn ikea_switch_commands() {
    assert_eq!(ikea_switch_callback(press(ControllerButton::On)), all_lights(LightState::on()));
    assert_eq!(ikea_switch_callback(press(ControllerButton::Off)), all_lights(LightState::off()));
    assert_eq!(
        ikea_switch_callback(press(ControllerButton::Left)),
        Command::Control(ControlCommand::CycleLeft)
    );
    assert_eq!(
        ikea_switch_callback(press(ControllerButton::Right)),
        Command::Control(ControlCommand::CycleRight)
    );
    assert_eq!(ikea_switch_callback(press(ControllerButton::Up)), Command::Nothing);
    assert_eq!(ikea_switch_callback(press(ControllerButton::Down)), Command::Nothing);
    assert_eq!(ikea_switch_callback(release(ControllerButton::On)), Command::Nothing);
}

#[test]
fn phillips_switch_commands() {
    assert_eq!(phillips_switch_callback(press(ControllerButton::On)), all_lights(LightState::on()));
    assert_eq!(phillips_switch_callback(press(ControllerButton::Off)), all_lights(LightState::off()));
    assert_eq!(phillips_switch_callback(press(ControllerButton::Up)), Command::AlarmOn);
    assert_eq!(phillips_switch_callback(press(ControllerButton::Down)), Command::AlarmOff);
    assert_eq!(phillips_switch_callback(press(ControllerButton::Left)), Command::Nothing);
    assert_eq!(phillips_switch_callback(release(ControllerButton::Up)), Command::Nothing);
}

#[test]
fn topics_name_their_switch() {
    assert_eq!(Switch::for_topic(IKEA_SWITCH_TOPIC), Some(Switch::Ikea));
    assert_eq!(Switch::for_topic(PHILLIPS_SWITCH_TOPIC), Some(Switch::Phillips));
    assert_eq!(Switch::for_topic(GET_MAIN_LIGHT_TOPIC), None);
    assert_eq!(Switch::for_topic(SET_MAIN_LIGHT_TOPIC), None);
    assert_eq!(Switch::for_topic(""), None);
}

#[test]
fn published_messages_become_commands() {
    assert_eq!(
        handle_button_press(IKEA_SWITCH_TOPIC, Some(press(ControllerButton::Left))),
        Command::Control(ControlCommand::CycleLeft)
    );
    assert_eq!(
        handle_button_press(PHILLIPS_SWITCH_TOPIC, Some(press(ControllerButton::Up))),
        Command::AlarmOn
    );
    assert_eq!(handle_button_press(IKEA_SWITCH_TOPIC, None), Command::Nothing);
    assert_eq!(
        handle_button_press(GET_MAIN_LIGHT_TOPIC, Some(press(ControllerButton::On))),
        Command::Nothing
    );
}

#[test]
fn alarm_commands_are_routed_to_the_alarm() {
    assert!(Command::AlarmOn.is_for_alarm());
    assert!(Command::AlarmOff.is_for_alarm());
    assert!(!Command::Nothing.is_for_alarm());
    assert!(!Command::Control(ControlCommand::CycleLeft).is_for_alarm());
    assert!(!all_lights(LightState::on()).is_for_alarm());
}

#[test]
fn both_switches_agree_on_on_and_off() {
    assert_eq!(
        ikea_switch_callback(press(ControllerButton::On)),
        phillips_switch_callback(press(ControllerButton::On))
    );
    assert_eq!(
        ikea_switch_callback(press(ControllerButton::Off)),
        phillips_switch_callback(press(ControllerButton::Off))
    );
}
