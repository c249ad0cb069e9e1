use light_control::commands::{Command, ControlCommand};
use light_control::controller::LightController;
use light_control::lights::{
    Color, LightCommand, LightState, Select, TargetLight, DEFAULT_COORDINATE_BITS, SET_TOPICS,
    TOPICS,
};
use light_control::text::decimal_string;

const ON_JSON: &str =
    "{\"state\" : \"ON\", \"brightness\" : 254, \"color_mode\":\"color_temp\",\"color_temp\":250}";
const OFF_JSON: &str =
    "{\"state\" : \"OFF\", \"brightness\" : 0, \"color_mode\":\"color_temp\",\"color_temp\":250}";

fn command(target: Select<TargetLight>, state: LightState) -> LightCommand {
    LightCommand { target_light: target, target_state: state }
}

#[test]
fn default_light_state_is_on() {
    assert_eq!(LightState::default(), LightState::on());
    let on = LightState::on();
    assert!(on.is_on);
    assert_eq!(on.brightness, 254);
    let off = LightState::off();
    assert!(!off.is_on);
    assert_eq!(off.brightness, 0);
    assert_eq!(off.color, Color::default());
}

#[test]
fn default_color_is_point_three_four() {
    let color = Color::default();
    assert_eq!(f32::from_bits(color.x_bits), 0.34f32);
    assert_eq!(f32::from_bits(color.y_bits), 0.34f32);
    assert_eq!(DEFAULT_COORDINATE_BITS, 0.34f32.to_bits());
}

#[test]
fn default_selection_is_all() {
    assert_eq!(Select::<TargetLight>::default(), Select::All);
}

#[test]
fn default_command_targets_nothing() {
    let c = LightCommand::default();
    assert_eq!(c.target_light, Select::Nothing);
    assert_eq!(c.target_state, LightState::on());
    assert_eq!(c.topics(), None);
}

#[test]
fn all_selection_names_every_set_topic() {
    let topics = command(Select::All, LightState::on()).topics().unwrap();
    let expected: Vec<String> = SET_TOPICS.iter().map(|s| s.to_string()).collect();
    assert_eq!(topics.to_vec(), expected);
}

#[test]
fn specific_selection_names_its_topic() {
    let cases = [
        (TargetLight::MainLight, "zigbee2mqtt/taklys/set"),
        (TargetLight::TopLight, "zigbee2mqtt/topplys/set"),
        (TargetLight::MidLight, "zigbee2mqtt/midtlys/set"),
        (TargetLight::NightLight, "zigbee2mqtt/nattlys/set"),
    ];
    for (light, topic) in cases {
        let topics = command(Select::Specific(light), LightState::off()).topics().unwrap();
        assert_eq!(topics.to_vec(), vec![topic.to_string()]);
    }
}

#[test]
fn current_and_nothing_name_no_topics() {
    assert_eq!(command(Select::Current, LightState::on()).topics(), None);
    assert_eq!(command(Select::Nothing, LightState::on()).topics(), None);
}

#[test]
fn json_payloads() {
    assert_eq!(command(Select::All, LightState::on()).as_json(), ON_JSON);
    assert_eq!(command(Select::All, LightState::off()).as_json(), OFF_JSON);
    let dim = LightState { is_on: true, brightness: 7, color: Color::default() };
    assert_eq!(
        command(Select::Current, dim).as_json(),
        "{\"state\" : \"ON\", \"brightness\" : 7, \"color_mode\":\"color_temp\",\"color_temp\":250}"
    );
    let odd = LightState { is_on: false, brightness: 100, color: Color::default() };
    assert_eq!(
        command(Select::Nothing, odd).as_json(),
        "{\"state\" : \"OFF\", \"brightness\" : 100, \"color_mode\":\"color_temp\",\"color_temp\":250}"
    );
}

#[test]
fn decimal_strings_match_format() {
    for n in [0u32, 1, 9, 10, 19, 99, 100, 250, 255, 1000, 65535, 4294967295] {
        assert_eq!(decimal_string(n), format!("{}", n));
    }
}

#[test]
fn topic_lists() {
    assert_eq!(TOPICS.len(), 6);
    assert_eq!(TOPICS[0], "zigbee2mqtt/ikea-bryter");
    assert_eq!(TOPICS[1], "zigbee2mqtt/phillips-bryter");
    for (get, set) in TOPICS[2..].iter().zip(SET_TOPICS.iter()) {
        assert_eq!(format!("{}/set", get), *set);
    }
}

#[test]
fn controller_starts_on_the_main_light() {
    let controller = LightController::new();
    assert_eq!(controller.selected_index(), 0);
    assert_eq!(controller.current_topic(), "zigbee2mqtt/taklys/set");
}

#[test]
fn cycling_wraps_around() {
    let mut controller = LightController::new();
    controller.cycle(ControlCommand::CycleLeft);
    assert_eq!(controller.selected_index(), 3);
    assert_eq!(controller.current_topic(), "zigbee2mqtt/nattlys/set");
    controller.cycle(ControlCommand::CycleRight);
    assert_eq!(controller.selected_index(), 0);
    for expected in [1usize, 2, 3, 0] {
        controller.cycle(ControlCommand::CycleRight);
        assert_eq!(controller.selected_index(), expected);
    }
}

#[test]
fn control_commands_publish_nothing() {
    let mut controller = LightController::new();
    let published = controller.handle(Command::Control(ControlCommand::CycleRight));
    assert!(published.is_empty());
    assert_eq!(controller.selected_index(), 1);
    assert!(controller.handle(Command::AlarmOn).is_empty());
    assert!(controller.handle(Command::AlarmOff).is_empty());
    assert!(controller.handle(Command::Nothing).is_empty());
    assert_eq!(controller.selected_index(), 1);
}

#[test]
fn light_commands_publish_on_their_topics() {
    let mut controller = LightController::new();
    let published = controller.handle(Command::Light(command(Select::All, LightState::on())));
    assert_eq!(published.len(), 4);
    for (publication, topic) in published.iter().zip(SET_TOPICS.iter()) {
        assert_eq!(publication.topic, *topic);
        assert_eq!(publication.payload, ON_JSON);
    }
    let published = controller.handle(Command::Light(command(
        Select::Specific(TargetLight::MidLight),
        LightState::off(),
    )));
    assert_eq!(published.len(), 1);
    assert_eq!(published[0].topic, "zigbee2mqtt/midtlys/set");
    assert_eq!(published[0].payload, OFF_JSON);
    assert!(controller
        .handle(Command::Light(command(Select::Nothing, LightState::off())))
        .is_empty());
}

#[test]
fn current_selection_publishes_on_the_selected_light() {
    let mut controller = LightController::new();
    controller.handle(Command::Control(ControlCommand::CycleRight));
    controller.handle(Command::Control(ControlCommand::CycleRight));
    let published = controller.handle(Command::Light(command(Select::Current, LightState::off())));
    assert_eq!(published.len(), 1);
    assert_eq!(published[0].topic, "zigbee2mqtt/midtlys/set");
    assert_eq!(published[0].payload, OFF_JSON);
}
