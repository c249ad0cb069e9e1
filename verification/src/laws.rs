use vstd::prelude::*;

use crate::alarm::{alarm_on_after, in_window, window_end, window_fits, window_start, AlarmConfig, TimeOfDay};
use crate::alarm::AlarmTime;
use crate::buttons::{action_named, is_known_action_name, ButtonAction, ButtonMessage, ControllerButton};
use crate::config::{config_from_fields, field_error_is_due, AlarmField, ConfigError, FieldValue};
use crate::commands::{
    ikea_command, phillips_command, publish_command, switch_command, switch_on_topic, Command,
    ControlCommand, Switch,
};
use crate::controller::{index_after, next_index, publications_for, LIGHT_COUNT};
use crate::lights::{
    all_set_topics, json_payload, set_topic, LightCommand, TargetLight, GET_MAIN_LIGHT_TOPIC,
    GET_MID_LIGHT_TOPIC, GET_NIGHT_LIGHT_TOPIC, GET_TOP_LIGHT_TOPIC, IKEA_SWITCH_TOPIC,
    PHILLIPS_SWITCH_TOPIC, SET_MAIN_LIGHT_TOPIC, SET_MID_LIGHT_TOPIC, SET_NIGHT_LIGHT_TOPIC,
    SET_TOP_LIGHT_TOPIC, SET_TOPICS, TOPICS,
};

verus! {

/// Cycling left and then right, or right and then left, selects the light that
/// was selected before.
pub proof fn law_cycle_back_and_forth(index: nat)
    requires
        index < LIGHT_COUNT,
    ensures
        next_index(next_index(index, ControlCommand::CycleLeft), ControlCommand::CycleRight)
            == index,
        next_index(next_index(index, ControlCommand::CycleRight), ControlCommand::CycleLeft)
            == index,
{
}

/// Cycling four times in the same direction comes back to the light that was
/// selected before, and every cycle selects one of the four lights.
pub proof fn law_cycle_full_turn(index: nat, direction: ControlCommand)
    requires
        index < LIGHT_COUNT,
    ensures
        next_index(index, direction) < LIGHT_COUNT,
        next_index(
            next_index(next_index(next_index(index, direction), direction), direction),
            direction,
        ) == index,
{
}

/// A light command is published with the same payload, the target state's
/// JSON, on every topic it goes to, and each of those topics is the set topic
/// of one of the four lights.
pub proof fn law_publications_are_set_topics(index: nat, command: LightCommand, j: int)
    requires
        index < LIGHT_COUNT,
        0 <= j < publications_for(index, Command::Light(command)).len(),
    ensures
        publications_for(index, Command::Light(command))[j].1 == json_payload(
            command.target_state,
        ),
        all_set_topics().contains(publications_for(index, Command::Light(command))[j].0),
{
    let topic = publications_for(index, Command::Light(command))[j].0;
    match command.target_light {
        crate::lights::Select::All => {
            assert(all_set_topics()[j] == topic);
        },
        crate::lights::Select::Specific(light) => {
            match light {
                TargetLight::MainLight => assert(all_set_topics()[0] == topic),
                TargetLight::TopLight => assert(all_set_topics()[1] == topic),
                TargetLight::MidLight => assert(all_set_topics()[2] == topic),
                TargetLight::NightLight => assert(all_set_topics()[3] == topic),
            }
        },
        crate::lights::Select::Current => {
            assert(all_set_topics()[index as int] == topic);
        },
        crate::lights::Select::Nothing => {},
    }
}

/// Inside the alarm window the alarm goes, whatever came from the buttons.
pub proof fn law_alarm_goes_inside_window(on: bool, received: Option<Command>)
    ensures
        alarm_on_after(on, received, true),
{
}

/// Outside the window, an `AlarmOn` starts the alarm, an `AlarmOff` stops it,
/// and anything else leaves it as it was.
pub proof fn law_alarm_buttons_outside_window(on: bool, received: Option<Command>)
    ensures
        received == Some(Command::AlarmOn) ==> alarm_on_after(on, received, false),
        received == Some(Command::AlarmOff) ==> !alarm_on_after(on, received, false),
        received != Some(Command::AlarmOn) && received != Some(Command::AlarmOff)
            ==> alarm_on_after(on, received, false) == on,
{
}

/// The configured alarm time lies in the alarm window.
pub proof fn law_alarm_time_in_window(config: AlarmConfig)
    requires
        window_fits(config),
    ensures
        in_window(
            window_start(config),
            window_end(config),
            TimeOfDay { hour: config.hour, minute: config.minute, second: config.second },
        ),
{
}

/// Both switches turn all lights on and off the same way.
pub proof fn law_switches_agree_on_on_and_off()
    ensures
        ikea_command(ButtonAction::Press(ControllerButton::On)) == phillips_command(
            ButtonAction::Press(ControllerButton::On),
        ),
        ikea_command(ButtonAction::Press(ControllerButton::Off)) == phillips_command(
            ButtonAction::Press(ControllerButton::Off),
        ),
{
}

/// Releasing a button asks for nothing on either switch, and the Ikea switch
/// never controls the alarm.
pub proof fn law_releases_do_nothing(button: ControllerButton, action: ButtonAction)
    ensures
        ikea_command(ButtonAction::Release(button)) == Command::Nothing,
        phillips_command(ButtonAction::Release(button)) == Command::Nothing,
        !(ikea_command(action) is AlarmOn),
        !(ikea_command(action) is AlarmOff),
{
}

/// The topics of the lights, on which they report and take states, are never
/// taken for a switch's topic.
pub proof fn law_light_topics_are_not_switches(light: TargetLight)
    ensures
        switch_on_topic(set_topic(light)) is None,
        switch_on_topic(GET_MAIN_LIGHT_TOPIC@) is None,
        switch_on_topic(GET_TOP_LIGHT_TOPIC@) is None,
        switch_on_topic(GET_MID_LIGHT_TOPIC@) is None,
        switch_on_topic(GET_NIGHT_LIGHT_TOPIC@) is None,
{
    reveal_strlit("zigbee2mqtt/ikea-bryter");
    reveal_strlit("zigbee2mqtt/phillips-bryter");
    reveal_strlit("zigbee2mqtt/taklys");
    reveal_strlit("zigbee2mqtt/topplys");
    reveal_strlit("zigbee2mqtt/midtlys");
    reveal_strlit("zigbee2mqtt/nattlys");
    reveal_strlit("zigbee2mqtt/taklys/set");
    reveal_strlit("zigbee2mqtt/topplys/set");
    reveal_strlit("zigbee2mqtt/midtlys/set");
    reveal_strlit("zigbee2mqtt/nattlys/set");
    assert(IKEA_SWITCH_TOPIC@[12] == 'i');
    assert(PHILLIPS_SWITCH_TOPIC@[12] == 'p');
    assert(SET_MAIN_LIGHT_TOPIC@[12] == 't');
    assert(SET_TOP_LIGHT_TOPIC@[12] == 't');
    assert(SET_MID_LIGHT_TOPIC@[12] == 'm');
    assert(SET_NIGHT_LIGHT_TOPIC@[12] == 'n');
    assert(GET_MAIN_LIGHT_TOPIC@[12] == 't');
    assert(GET_TOP_LIGHT_TOPIC@[12] == 't');
    assert(GET_MID_LIGHT_TOPIC@[12] == 'm');
    assert(GET_NIGHT_LIGHT_TOPIC@[12] == 'n');
}


/// Each light takes new states on its own topic followed by "/set", and the
/// set topics are listed in `SET_TOPICS` in the order of `all_set_topics`.
pub proof fn law_set_topics_follow_light_topics()
    ensures
        SET_MAIN_LIGHT_TOPIC@ == GET_MAIN_LIGHT_TOPIC@ + "/set"@,
        SET_TOP_LIGHT_TOPIC@ == GET_TOP_LIGHT_TOPIC@ + "/set"@,
        SET_MID_LIGHT_TOPIC@ == GET_MID_LIGHT_TOPIC@ + "/set"@,
        SET_NIGHT_LIGHT_TOPIC@ == GET_NIGHT_LIGHT_TOPIC@ + "/set"@,
        SET_TOPICS@.map_values(|topic: &str| topic@) == all_set_topics(),
{
    reveal_strlit("zigbee2mqtt/taklys");
    reveal_strlit("zigbee2mqtt/topplys");
    reveal_strlit("zigbee2mqtt/midtlys");
    reveal_strlit("zigbee2mqtt/nattlys");
    reveal_strlit("zigbee2mqtt/taklys/set");
    reveal_strlit("zigbee2mqtt/topplys/set");
    reveal_strlit("zigbee2mqtt/midtlys/set");
    reveal_strlit("zigbee2mqtt/nattlys/set");
    reveal_strlit("/set");
    assert(SET_MAIN_LIGHT_TOPIC@ =~= GET_MAIN_LIGHT_TOPIC@ + "/set"@);
    assert(SET_TOP_LIGHT_TOPIC@ =~= GET_TOP_LIGHT_TOPIC@ + "/set"@);
    assert(SET_MID_LIGHT_TOPIC@ =~= GET_MID_LIGHT_TOPIC@ + "/set"@);
    assert(SET_NIGHT_LIGHT_TOPIC@ =~= GET_NIGHT_LIGHT_TOPIC@ + "/set"@);
    assert(SET_TOPICS@.map_values(|topic: &str| topic@) =~= all_set_topics());
}

/// The subscribed topics are the two switches' topics followed by the four
/// lights' topics.
pub proof fn law_subscriptions_cover_switches_and_lights()
    ensures
        TOPICS@.map_values(|topic: &str| topic@) == seq![
            IKEA_SWITCH_TOPIC@,
            PHILLIPS_SWITCH_TOPIC@,
            GET_MAIN_LIGHT_TOPIC@,
            GET_TOP_LIGHT_TOPIC@,
            GET_MID_LIGHT_TOPIC@,
            GET_NIGHT_LIGHT_TOPIC@,
        ],
{
    assert(TOPICS@.map_values(|topic: &str| topic@) =~= seq![
        IKEA_SWITCH_TOPIC@,
        PHILLIPS_SWITCH_TOPIC@,
        GET_MAIN_LIGHT_TOPIC@,
        GET_TOP_LIGHT_TOPIC@,
        GET_MID_LIGHT_TOPIC@,
        GET_NIGHT_LIGHT_TOPIC@,
    ]);
}


/// Whether the alarm is on after a run of rounds, each given by what came
/// from the buttons and whether the clock was in the window.
pub open spec fn alarm_on_after_rounds(on: bool, rounds: Seq<(Option<Command>, bool)>) -> bool
    decreases rounds.len(),
{
    if rounds.len() == 0 {
        on
    } else {
        alarm_on_after(
            alarm_on_after_rounds(on, rounds.drop_last()),
            rounds.last().0,
            rounds.last().1,
        )
    }
}

/// An alarm that starts off blinks in no round until an `AlarmOn` has come or
/// the clock has been in the window: without either it stays off throughout.
pub proof fn law_alarm_silent_without_trigger(rounds: Seq<(Option<Command>, bool)>)
    requires
        forall|k: int|
            0 <= k < rounds.len() ==> #[trigger] rounds[k].0 != Some(Command::AlarmOn)
                && !rounds[k].1,
    ensures
        !alarm_on_after_rounds(false, rounds),
    decreases rounds.len(),
{
    if rounds.len() != 0 {
        let earlier = rounds.drop_last();
        assert forall|k: int| 0 <= k < earlier.len() implies #[trigger] earlier[k].0 != Some(
            Command::AlarmOn,
        ) && !earlier[k].1 by {
            assert(earlier[k] == rounds[k]);
        }
        law_alarm_silent_without_trigger(earlier);
        assert(rounds[rounds.len() - 1].0 != Some(Command::AlarmOn));
    }
}


/// The left arrow selects the light before the selected one, wrapping from
/// the first (the main light) to the last (the night light); the right arrow
/// selects the next one, wrapping from the last to the first. A control
/// command moves the selection in its own direction, and no other command
/// moves it.
pub proof fn law_arrows_move_the_selection(index: nat, command: Command)
    requires
        index < LIGHT_COUNT,
    ensures
        next_index(index, ControlCommand::CycleLeft) == if index == 0 {
            3
        } else {
            index - 1
        },
        next_index(index, ControlCommand::CycleRight) == if index == 3 {
            0
        } else {
            index + 1
        },
        index_after(index, Command::Control(ControlCommand::CycleLeft)) == if index == 0 {
            3
        } else {
            index - 1
        },
        index_after(index, Command::Control(ControlCommand::CycleRight)) == if index == 3 {
            0
        } else {
            index + 1
        },
        !(command is Control) ==> index_after(index, command) == index,
        all_set_topics()[index_after(0, Command::Control(ControlCommand::CycleLeft)) as int]
            == SET_NIGHT_LIGHT_TOPIC@,
        all_set_topics()[index_after(0, Command::Control(ControlCommand::CycleRight)) as int]
            == SET_TOP_LIGHT_TOPIC@,
{
}

/// Any three numbers make an alarm time, zero included, taken field by field.
pub proof fn law_numbers_make_an_alarm_time(hour: u32, minute: u32, second: u32)
    ensures
        config_from_fields(
            FieldValue::Number(hour),
            FieldValue::Number(minute),
            FieldValue::Number(second),
        ) == Ok::<AlarmConfig, ConfigError>(
            AlarmConfig { hour: hour, minute: minute, second: second },
        ),
{
}

/// An error names a field only where that field is missing or invalid and the
/// fields before it are numbers; and where any field is missing or invalid
/// there is an error.
pub proof fn law_field_errors_name_the_bad_field(
    hour: FieldValue,
    minute: FieldValue,
    second: FieldValue,
)
    ensures
        config_from_fields(hour, minute, second) matches Err(e) ==> field_error_is_due(
            e,
            hour,
            minute,
            second,
        ),
        config_from_fields(hour, minute, second) is Ok <==> (hour is Number && minute is Number
            && second is Number),
        hour == FieldValue::Missing ==> config_from_fields(hour, minute, second) == Err::<
            AlarmConfig,
            ConfigError,
        >(ConfigError::MissingField(AlarmField::Hour)),
{
}

/// A time lies in the window exactly where its hour, minute and second each
/// lie between the start's and the end's; in particular a time before the
/// start hour, minute or second is never in it.
pub proof fn law_window_bounds_each_field(start: AlarmTime, end: AlarmTime, now: TimeOfDay)
    ensures
        in_window(start, end, now) <==> (start.hour <= now.hour && now.hour <= end.hour
            && start.minute <= now.minute && now.minute <= end.minute && start.second
            <= now.second && now.second <= end.second),
        now.hour < start.hour ==> !in_window(start, end, now),
        now.minute < start.minute ==> !in_window(start, end, now),
        now.second < start.second ==> !in_window(start, end, now),
{
}

/// An alarm that is off stays off in a round before its window's start hour
/// unless an `AlarmOn` comes.
pub proof fn law_alarm_quiet_before_its_hour(
    start: AlarmTime,
    end: AlarmTime,
    now: TimeOfDay,
    received: Option<Command>,
)
    requires
        now.hour < start.hour,
        received != Some(Command::AlarmOn),
    ensures
        !alarm_on_after(false, received, in_window(start, end, now)),
{
}

/// A message that could not be read asks for nothing, whichever switch sent
/// it and whatever topic it came on.
pub proof fn law_unreadable_messages_ask_nothing(switch: Switch, topic: Seq<char>)
    ensures
        switch_command(switch, None::<ButtonMessage>) == Command::Nothing,
        publish_command(topic, None::<ButtonMessage>) == Command::Nothing,
{
}

/// Only the twelve names that the switches send decode to an action; every
/// other name, in whatever case, decodes to nothing. The four
/// "..._press_release" names are the only releases.
pub proof fn law_only_known_names_decode(name: Seq<char>)
    ensures
        action_named(name) is Some <==> is_known_action_name(name),
        action_named(name) matches Some(a) ==> (a is Release <==> (name == "on_press_release"@
            || name == "off_press_release"@ || name == "up_press_release"@ || name
            == "down_press_release"@)),
{
    reveal_strlit("on");
    reveal_strlit("off");
    reveal_strlit("arrow_left_click");
    reveal_strlit("arrow_right_click");
    reveal_strlit("on_press");
    reveal_strlit("off_press");
    reveal_strlit("up_press");
    reveal_strlit("down_press");
    reveal_strlit("on_press_release");
    reveal_strlit("off_press_release");
    reveal_strlit("up_press_release");
    reveal_strlit("down_press_release");
    assert("on"@[1] == 'n' && "on"@.len() == 2);
    assert("off"@[2] == 'f' && "off"@.len() == 3);
    assert("arrow_left_click"@[15] == 'k' && "arrow_left_click"@.len() == 16);
    assert("arrow_right_click"@[16] == 'k' && "arrow_right_click"@.len() == 17);
    assert("on_press"@[7] == 's' && "on_press"@.len() == 8);
    assert("off_press"@[8] == 's' && "off_press"@.len() == 9);
    assert("up_press"@[7] == 's' && "up_press"@.len() == 8);
    assert("down_press"@[9] == 's' && "down_press"@.len() == 10);
    assert("on_press_release"@[15] == 'e' && "on_press_release"@.len() == 16);
    assert("off_press_release"@[16] == 'e' && "off_press_release"@.len() == 17);
    assert("up_press_release"@[15] == 'e' && "up_press_release"@.len() == 16);
    assert("down_press_release"@[17] == 'e' && "down_press_release"@.len() == 18);
}

} // verus!
