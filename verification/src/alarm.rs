use vstd::prelude::*;

use crate::commands::{all_lights, Command};
use crate::lights::{off_state, on_state, LightCommand, LightState, Select};

verus! {

/// How long after its start the alarm keeps going at least, in seconds.
pub const ALARM_MIN_DURATION_SECONDS: u32 = 5;

/// The configured time of the alarm.
#[derive(Debug, Copy, Clone, PartialEq, Eq, Structural)]
pub struct AlarmConfig {
    pub hour: u32,
    pub minute: u32,
    pub second: u32,
}

/// A bound of the alarm window, field by field.
#[derive(Debug, Copy, Clone, PartialEq, Eq, Structural)]
pub struct AlarmTime {
    pub hour: u32,
    pub minute: u32,
    pub second: u32,
}

/// A local wall-clock time.
#[derive(Debug, Copy, Clone, PartialEq, Eq, Structural)]
pub struct TimeOfDay {
    pub hour: u32,
    pub minute: u32,
    pub second: u32,
}

impl TimeOfDay {
    /// Hour, minute and second are in their ranges.
    pub open spec fn is_valid(self) -> bool {
        self.hour < 24 && self.minute < 60 && self.second < 60
    }
}

/// The seconds of the window's end: the alarm's second plus the minimum duration.
pub open spec fn second_with_margin(config: AlarmConfig) -> int {
    config.second + ALARM_MIN_DURATION_SECONDS
}

/// The minutes of the window's end: the carry out of the seconds is added,
/// the seconds themselves are not reduced.
pub open spec fn minute_with_margin(config: AlarmConfig) -> int {
    config.minute + second_with_margin(config) / 60
}

/// The hours of the window's end, likewise.
pub open spec fn hour_with_margin(config: AlarmConfig) -> int {
    config.hour + minute_with_margin(config) / 60
}

/// Whether the window's end can be computed in `u32`.
pub open spec fn window_fits(config: AlarmConfig) -> bool {
    &&& second_with_margin(config) <= u32::MAX
    &&& minute_with_margin(config) <= u32::MAX
    &&& hour_with_margin(config) <= u32::MAX
}

/// Where the alarm window starts: the configured time itself.
pub open spec fn window_start(config: AlarmConfig) -> AlarmTime {
    AlarmTime { hour: config.hour, minute: config.minute, second: config.second }
}

/// Where the alarm window ends.
pub open spec fn window_end(config: AlarmConfig) -> AlarmTime {
    AlarmTime {
        hour: hour_with_margin(config) as u32,
        minute: minute_with_margin(config) as u32,
        second: second_with_margin(config) as u32,
    }
}

/// Whether `now` lies in the window: each of hour, minute and second lies
/// between the start's and the end's, each compared on its own.
pub open spec fn in_window(start: AlarmTime, end: AlarmTime, now: TimeOfDay) -> bool {
    &&& start.hour <= now.hour <= end.hour
    &&& start.minute <= now.minute <= end.minute
    &&& start.second <= now.second <= end.second
}

/// Whether the alarm is on after one round in which `received` came from the
/// buttons (if anything did) and the clock said `in_window`.
pub open spec fn alarm_on_after(on: bool, received: Option<Command>, in_window: bool) -> bool {
    let after_button = match received {
        Some(Command::AlarmOn) => true,
        Some(Command::AlarmOff) => false,
        _ => on,
    };
    after_button || in_window
}

/// The window in which the alarm starts by itself: from the configured time to
/// the end computed from it.
pub fn alarm_window(config: AlarmConfig) -> (window: (AlarmTime, AlarmTime))
    requires
        window_fits(config),
    ensures
        window.0 == window_start(config),
        window.1 == window_end(config),
{
    let second_with_margin = config.second + ALARM_MIN_DURATION_SECONDS;
    let minute_with_margin = config.minute + second_with_margin / 60;
    let hour_with_margin = config.hour + minute_with_margin / 60;
    let start_time = AlarmTime { hour: config.hour, minute: config.minute, second: config.second };
    let allow_stop_time = AlarmTime {
        hour: hour_with_margin,
        minute: minute_with_margin,
        second: second_with_margin,
    };
    (start_time, allow_stop_time)
}

/// Whether the end of the alarm window of `config` can be computed in `u32`;
/// where it cannot, computing it overflows.
pub fn window_end_fits(config: AlarmConfig) -> (fits: bool)
    ensures
        fits == window_fits(config),
{
    if config.second > u32::MAX - ALARM_MIN_DURATION_SECONDS {
        return false;
    }
    let second_with_margin = config.second + ALARM_MIN_DURATION_SECONDS;
    if config.minute > u32::MAX - second_with_margin / 60 {
        return false;
    }
    let minute_with_margin = config.minute + second_with_margin / 60;
    config.hour <= u32::MAX - minute_with_margin / 60
}

/// Whether `now` lies in the alarm window from `start` to `end`.
pub fn is_in_window(start: AlarmTime, end: AlarmTime, now: TimeOfDay) -> (inside: bool)
    ensures
        inside == in_window(start, end, now),
        inside <==> (start.hour <= now.hour && now.hour <= end.hour && start.minute <= now.minute
            && now.minute <= end.minute && start.second <= now.second && now.second <= end.second),
{
    let correct_hour = start.hour <= now.hour && now.hour <= end.hour;
    let correct_minute = start.minute <= now.minute && now.minute <= end.minute;
    let correct_second = start.second <= now.second && now.second <= end.second;
    correct_hour && correct_minute && correct_second
}

/// The two commands that make all lights blink once: first off, then on.
pub fn flash_commands() -> (commands: (Command, Command))
    ensures
        commands.0 == all_lights(off_state()),
        commands.1 == all_lights(on_state()),
{
    (
        Command::Light(LightCommand { target_light: Select::All, target_state: LightState::off() }),
        Command::Light(LightCommand { target_light: Select::All, target_state: LightState::on() }),
    )
}

/// The alarm: its window and whether it is going.
#[derive(Debug, Copy, Clone, PartialEq, Eq, Structural)]
pub struct Alarm {
    pub start: AlarmTime,
    pub allow_stop: AlarmTime,
    pub on: bool,
}

impl Alarm {
    /// An alarm that is not going, with the window of `config`.
    pub fn new(config: AlarmConfig) -> (alarm: Alarm)
        requires
            window_fits(config),
        ensures
            alarm.start == window_start(config),
            alarm.allow_stop == window_end(config),
            !alarm.on,
    {
        let (start, allow_stop) = alarm_window(config);
        Alarm { start, allow_stop, on: false }
    }

    /// One round of the alarm, given what came from the buttons (if anything)
    /// and the time: an `AlarmOn` starts it, an `AlarmOff` stops it, and inside
    /// the window it goes whatever came. The result says whether to blink the
    /// lights in this round, which it does while the alarm is on.
    pub fn step(&mut self, received: Option<Command>, now: TimeOfDay) -> (blink: bool)
        ensures
            final(self).start == old(self).start,
            final(self).allow_stop == old(self).allow_stop,
            final(self).on == alarm_on_after(
                old(self).on,
                received,
                in_window(old(self).start, old(self).allow_stop, now),
            ),
            blink == final(self).on,
    {
        match received {
            Some(Command::AlarmOn) => self.on = true,
            Some(Command::AlarmOff) => self.on = false,
            _ => {},
        }
        if is_in_window(self.start, self.allow_stop, now) {
            self.on = true;
        }
        self.on
    }
}

} // verus!
