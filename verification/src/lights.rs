use vstd::prelude::*;

use crate::text::{decimal, decimal_string};

verus! {

pub const IKEA_SWITCH_TOPIC: &'static str = "zigbee2mqtt/ikea-bryter";
pub const PHILLIPS_SWITCH_TOPIC: &'static str = "zigbee2mqtt/phillips-bryter";

pub const GET_MAIN_LIGHT_TOPIC: &'static str = "zigbee2mqtt/taklys";
pub const GET_TOP_LIGHT_TOPIC: &'static str = "zigbee2mqtt/topplys";
pub const GET_MID_LIGHT_TOPIC: &'static str = "zigbee2mqtt/midtlys";
pub const GET_NIGHT_LIGHT_TOPIC: &'static str = "zigbee2mqtt/nattlys";

pub const SET_MAIN_LIGHT_TOPIC: &'static str = "zigbee2mqtt/taklys/set";
pub const SET_TOP_LIGHT_TOPIC: &'static str = "zigbee2mqtt/topplys/set";
pub const SET_MID_LIGHT_TOPIC: &'static str = "zigbee2mqtt/midtlys/set";
pub const SET_NIGHT_LIGHT_TOPIC: &'static str = "zigbee2mqtt/nattlys/set";

pub const TOPICS: [&'static str; 6] = [
    "zigbee2mqtt/ikea-bryter",
    "zigbee2mqtt/phillips-bryter",
    "zigbee2mqtt/taklys",
    "zigbee2mqtt/topplys",
    "zigbee2mqtt/midtlys",
    "zigbee2mqtt/nattlys",
];

pub const SET_TOPICS: [&'static str; 4] = [
    "zigbee2mqtt/taklys/set",
    "zigbee2mqtt/topplys/set",
    "zigbee2mqtt/midtlys/set",
    "zigbee2mqtt/nattlys/set",
];


/// One of the four lights.
#[derive(Debug, Copy, Clone, PartialEq, Eq, Structural)]
pub enum TargetLight {
    MainLight,
    TopLight,
    MidLight,
    NightLight,
}

/// Which lights a command is for: the currently selected one, all of them,
/// a given one, or none.
#[derive(Debug, Copy, Clone, PartialEq, Eq, Structural)]
pub enum Select<T> {
    Current,
    All,
    Specific(T),
    Nothing,
}

impl<T> Default for Select<T> {
    fn default() -> (selection: Select<T>)
        ensures
            selection == Select::<T>::All,
    {
        Select::All
    }
}

/// A colour as CIE 1931 xy coordinates, each held as the bit pattern of an
/// IEEE 754 single-precision number.
#[derive(Debug, Copy, Clone, PartialEq, Eq, Structural)]
pub struct Color {
    pub x_bits: u32,
    pub y_bits: u32,
}

/// The bit pattern of the single-precision number nearest to 0.34.
pub const DEFAULT_COORDINATE_BITS: u32 = 0x3EAE_147B;

impl Default for Color {
    /// x = y = 0.34.
    fn default() -> (color: Color)
        ensures
            color == (Color { x_bits: DEFAULT_COORDINATE_BITS, y_bits: DEFAULT_COORDINATE_BITS }),
    {
        Color { x_bits: DEFAULT_COORDINATE_BITS, y_bits: DEFAULT_COORDINATE_BITS }
    }
}

/// The state a light is asked to take.
#[derive(Debug, Copy, Clone, PartialEq, Eq, Structural)]
pub struct LightState {
    pub is_on: bool,
    pub brightness: u8,
    pub color: Color,
}

/// The state of a light that is on at full brightness.
pub open spec fn on_state() -> LightState {
    LightState {
        is_on: true,
        color: Color { x_bits: DEFAULT_COORDINATE_BITS, y_bits: DEFAULT_COORDINATE_BITS },
        brightness: 254,
    }
}

/// The state of a light that is off.
pub open spec fn off_state() -> LightState {
    LightState {
        is_on: false,
        color: Color { x_bits: DEFAULT_COORDINATE_BITS, y_bits: DEFAULT_COORDINATE_BITS },
        brightness: 0,
    }
}

impl Default for LightState {
    fn default() -> (state: LightState)
        ensures
            state == on_state(),
    {
        LightState { is_on: true, color: Color::default(), brightness: 254 }
    }
}

impl LightState {
    pub fn on() -> (state: LightState)
        ensures
            state == on_state(),
    {
        LightState { is_on: true, color: Color::default(), brightness: 254 }
    }

    pub fn off() -> (state: LightState)
        ensures
            state == off_state(),
    {
        LightState { is_on: false, color: Color::default(), brightness: 0 }
    }
}

/// A request to put some lights into a state.
#[derive(Debug, Copy, Clone, PartialEq, Eq, Structural)]
pub struct LightCommand {
    pub target_light: Select<TargetLight>,
    pub target_state: LightState,
}

/// The topic on which a light takes new states.
pub open spec fn set_topic(light: TargetLight) -> Seq<char> {
    match light {
        TargetLight::MainLight => SET_MAIN_LIGHT_TOPIC@,
        TargetLight::TopLight => SET_TOP_LIGHT_TOPIC@,
        TargetLight::MidLight => SET_MID_LIGHT_TOPIC@,
        TargetLight::NightLight => SET_NIGHT_LIGHT_TOPIC@,
    }
}

/// The set topics of all four lights, in the order of `SET_TOPICS`.
pub open spec fn all_set_topics() -> Seq<Seq<char>> {
    seq![
        SET_MAIN_LIGHT_TOPIC@,
        SET_TOP_LIGHT_TOPIC@,
        SET_MID_LIGHT_TOPIC@,
        SET_NIGHT_LIGHT_TOPIC@,
    ]
}

/// The topics that a selection names by itself: all four for `All`, one for
/// `Specific`; none for `Current` (which depends on the selection state) and
/// for `None`.
pub open spec fn selection_topics(target: Select<TargetLight>) -> Option<Seq<Seq<char>>> {
    match target {
        Select::All => Some(all_set_topics()),
        Select::Specific(light) => Some(seq![set_topic(light)]),
        _ => None,
    }
}

/// The colour temperature that every payload asks for.
pub const COLOR_TEMPERATURE: u32 = 250;

/// The JSON payload that sets a light to `state`.
pub open spec fn json_payload(state: LightState) -> Seq<char> {
    "{"@ + (if state.is_on {
        "\"state\" : \"ON\", "@
    } else {
        "\"state\" : \"OFF\", "@
    }) + "\"brightness\" : "@ + decimal(state.brightness as nat) + ", "@
        + "\"color_mode\":\"color_temp\",\"color_temp\":"@ + decimal(COLOR_TEMPERATURE as nat)
        + "}"@
}

/// Calls `Vec::into_boxed_slice` of std.
///
/// Trusted: the boxed slice holds the vector's items in order.
#[verifier::external_body]
fn into_boxed_slice<T>(items: Vec<T>) -> (boxed: Box<[T]>)
    ensures
        boxed@ == items@,
{
    items.into_boxed_slice()
}

impl LightCommand {
    /// The topics to publish this command on, where the selection names them.
    pub fn topics(&self) -> (topics: Option<Box<[String]>>)
        ensures
            match topics {
                Some(list) => selection_topics(self.target_light) == Some(list.deep_view()),
                None => selection_topics(self.target_light) is None,
            },
    {
        match self.target_light {
            Select::All => {
                let mut list: Vec<String> = Vec::new();
                let mut i: usize = 0;
                while i < 4
                    invariant
                        i <= 4,
                        list.deep_view() == all_set_topics().take(i as int),
                    decreases 4 - i,
                {
                    let topic = SET_TOPICS[i];
                    proof {
                        assert(topic@ == all_set_topics()[i as int]);
                    }
                    list.push(String::from_str(topic));
                    proof {
                        assert(all_set_topics().take(i + 1) =~= all_set_topics().take(i as int).push(topic@));
                    }
                    i = i + 1;
                }
                proof {
                    assert(all_set_topics().take(4) =~= all_set_topics());
                }
                Some(into_boxed_slice(list))
            },
            Select::Specific(light) => {
                let topic = match light {
                    TargetLight::TopLight => SET_TOP_LIGHT_TOPIC,
                    TargetLight::MidLight => SET_MID_LIGHT_TOPIC,
                    TargetLight::MainLight => SET_MAIN_LIGHT_TOPIC,
                    TargetLight::NightLight => SET_NIGHT_LIGHT_TOPIC,
                };
                let mut list: Vec<String> = Vec::new();
                list.push(String::from_str(topic));
                proof {
                    assert(list.deep_view() =~= seq![set_topic(light)]);
                }
                Some(into_boxed_slice(list))
            },
            _ => None,
        }
    }

    /// The JSON payload that sets a light to the target state.
    pub fn as_json(&self) -> (json: String)
        ensures
            json@ == json_payload(self.target_state),
    {
        let mut final_json = String::from_str("{");
        if self.target_state.is_on {
            final_json.append("\"state\" : \"ON\", ");
        } else {
            final_json.append("\"state\" : \"OFF\", ");
        }
        final_json.append("\"brightness\" : ");
        let brightness = decimal_string(self.target_state.brightness as u32);
        final_json.append(brightness.as_str());
        final_json.append(", ");
        final_json.append("\"color_mode\":\"color_temp\",\"color_temp\":");
        let temperature = decimal_string(COLOR_TEMPERATURE);
        final_json.append(temperature.as_str());
        final_json.append("}");
        final_json
    }
}

impl Default for LightCommand {
    fn default() -> (command: LightCommand)
        ensures
            command == (LightCommand { target_light: Select::Nothing, target_state: on_state() }),
    {
        LightCommand { target_light: Select::Nothing, target_state: LightState::default() }
    }
}

} // verus!
