use vstd::prelude::*;

use crate::buttons::{ButtonAction, ButtonMessage, ControllerButton};
use crate::lights::{
    off_state, on_state, LightCommand, LightState, Select, IKEA_SWITCH_TOPIC,
    PHILLIPS_SWITCH_TOPIC,
};
use crate::text::str_eq;

verus! {

/// A change of which light is selected.
#[derive(Debug, Copy, Clone, PartialEq, Eq, Structural)]
pub enum ControlCommand {
    CycleLeft,
    CycleRight,
}

/// What a button press asks the controller to do.
#[derive(Debug, Copy, Clone, PartialEq, Eq, Structural)]
pub enum Command {
    Light(LightCommand),
    Control(ControlCommand),
    AlarmOn,
    AlarmOff,
    Nothing,
}

/// The two wireless switches.
#[derive(Debug, Copy, Clone, PartialEq, Eq, Structural)]
pub enum Switch {
    Ikea,
    Phillips,
}

/// The command that puts every light into `state`.
pub open spec fn all_lights(state: LightState) -> Command {
    Command::Light(LightCommand { target_light: Select::All, target_state: state })
}

/// What a button action on the Ikea switch asks for.
pub open spec fn ikea_command(action: ButtonAction) -> Command {
    match action {
        ButtonAction::Press(ControllerButton::On) => all_lights(on_state()),
        ButtonAction::Press(ControllerButton::Off) => all_lights(off_state()),
        ButtonAction::Press(ControllerButton::Left) => Command::Control(ControlCommand::CycleLeft),
        ButtonAction::Press(ControllerButton::Right) => Command::Control(
            ControlCommand::CycleRight,
        ),
        _ => Command::Nothing,
    }
}

/// What a button action on the Phillips switch asks for.
pub open spec fn phillips_command(action: ButtonAction) -> Command {
    match action {
        ButtonAction::Press(ControllerButton::On) => all_lights(on_state()),
        ButtonAction::Press(ControllerButton::Off) => all_lights(off_state()),
        ButtonAction::Press(ControllerButton::Up) => Command::AlarmOn,
        ButtonAction::Press(ControllerButton::Down) => Command::AlarmOff,
        _ => Command::Nothing,
    }
}

/// The switch that publishes on `topic`, if any.
pub open spec fn switch_on_topic(topic: Seq<char>) -> Option<Switch> {
    if topic == IKEA_SWITCH_TOPIC@ {
        Some(Switch::Ikea)
    } else if topic == PHILLIPS_SWITCH_TOPIC@ {
        Some(Switch::Phillips)
    } else {
        None
    }
}

/// What a message from `switch` asks for; a message that could not be read
/// asks for nothing.
pub open spec fn switch_command(switch: Switch, message: Option<ButtonMessage>) -> Command {
    match message {
        Some(m) => match switch {
            Switch::Ikea => ikea_command(m.action),
            Switch::Phillips => phillips_command(m.action),
        },
        None => Command::Nothing,
    }
}

pub fn ikea_switch_callback(button_press: ButtonMessage) -> (command: Command)
    ensures
        command == ikea_command(button_press.action),
{
    match button_press.action {
        ButtonAction::Press(ControllerButton::On) => Command::Light(
            LightCommand { target_light: Select::All, target_state: LightState::on() },
        ),
        ButtonAction::Press(ControllerButton::Off) => Command::Light(
            LightCommand { target_light: Select::All, target_state: LightState::off() },
        ),
        ButtonAction::Press(ControllerButton::Left) => Command::Control(ControlCommand::CycleLeft),
        ButtonAction::Press(ControllerButton::Right) => Command::Control(
            ControlCommand::CycleRight,
        ),
        _ => Command::Nothing,
    }
}

pub fn phillips_switch_callback(button_press: ButtonMessage) -> (command: Command)
    ensures
        command == phillips_command(button_press.action),
{
    match button_press.action {
        ButtonAction::Press(ControllerButton::On) => Command::Light(
            LightCommand { target_light: Select::All, target_state: LightState::on() },
        ),
        ButtonAction::Press(ControllerButton::Off) => Command::Light(
            LightCommand { target_light: Select::All, target_state: LightState::off() },
        ),
        ButtonAction::Press(ControllerButton::Up) => Command::AlarmOn,
        ButtonAction::Press(ControllerButton::Down) => Command::AlarmOff,
        _ => Command::Nothing,
    }
}

impl Switch {
    /// The switch that publishes on `topic`; `None` for the topics of the lights
    /// and any other topic.
    pub fn for_topic(topic: &str) -> (switch: Option<Switch>)
        ensures
            switch == switch_on_topic(topic@),
    {
        if str_eq(topic, IKEA_SWITCH_TOPIC) {
            Some(Switch::Ikea)
        } else if str_eq(topic, PHILLIPS_SWITCH_TOPIC) {
            Some(Switch::Phillips)
        } else {
            None
        }
    }

    /// The command for a message published by this switch, given the message
    /// as it was read, or `None` where its payload could not be read.
    pub fn command(self, message: Option<ButtonMessage>) -> (command: Command)
        ensures
            command == switch_command(self, message),
            message is None ==> command == Command::Nothing,
    {
        match message {
            Some(m) => match self {
                Switch::Ikea => ikea_switch_callback(m),
                Switch::Phillips => phillips_switch_callback(m),
            },
            None => Command::Nothing,
        }
    }
}

/// The command for a message published on `topic`: messages of the two switches
/// are decoded by the switch's own buttons, all others ask for nothing.
pub open spec fn publish_command(topic: Seq<char>, message: Option<ButtonMessage>) -> Command {
    match switch_on_topic(topic) {
        Some(switch) => switch_command(switch, message),
        None => Command::Nothing,
    }
}

/// The command for a message published on `topic`, given its payload as it was
/// read (`None` where the payload was not UTF-8 or not a button message).
pub fn handle_button_press(topic: &str, message: Option<ButtonMessage>) -> (command: Command)
    ensures
        command == publish_command(topic@, message),
        message is None ==> command == Command::Nothing,
{
    match Switch::for_topic(topic) {
        Some(switch) => switch.command(message),
        None => Command::Nothing,
    }
}

impl Command {
    /// Whether the command is for the alarm (and is sent to it) rather than for
    /// the light controller.
    pub fn is_for_alarm(&self) -> (for_alarm: bool)
        ensures
            for_alarm <==> (*self is AlarmOn || *self is AlarmOff),
    {
        match self {
            Command::AlarmOn | Command::AlarmOff => true,
            _ => false,
        }
    }
}

} // verus!
