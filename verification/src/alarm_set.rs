//! Setting the alarm: asks for the time, then for the days, and hands back the new setting.
use vstd::prelude::*;

use chrono::WeekdaySet;

use crate::calendar::{DateValue, SECONDS_PER_DAY};
use crate::date_entry::{DateEntryState, EnterDateScene, FieldOption, Required};
use crate::weekday_select::{weekday_set_days, weekday_set_empty, WeekdaySelectScene};

verus! {

/// The alarm setting: off, or a time of day (seconds after midnight) on some weekdays.
#[derive(Clone, Copy)]
pub enum AlarmConfig {
    Off,
    Time { days: WeekdaySet, time: u32 },
}

/// How far the alarm screen has got.
#[derive(Clone, Copy, Debug, PartialEq, Eq, Structural)]
pub enum AlarmSetState {
    GettingTime,
    GettingDay,
    GotDay,
}

/// The screen the alarm screen hands over to next.
pub enum AlarmStep {
    /// Ask for the time.
    EnterTime(EnterDateScene),
    /// Ask for the days.
    SelectDays(WeekdaySelectScene),
    /// Back to the home screen.
    Home,
}

/// The alarm screen.
pub struct AlarmSetScene {
    state: AlarmSetState,
    time: Option<u32>,
    days: Option<WeekdaySet>,
}

/// The time of day the alarm is set to, or midnight when it is off.
pub open spec fn config_time(config: AlarmConfig) -> int {
    match config {
        AlarmConfig::Off => 0,
        AlarmConfig::Time { time, .. } => time as int,
    }
}

/// The days the alarm rings on, as numbers from Monday (0); none when it is off.
pub open spec fn config_days(config: AlarmConfig) -> Set<u8> {
    match config {
        AlarmConfig::Off => Set::empty(),
        AlarmConfig::Time { days, .. } => weekday_set_days(days),
    }
}

impl AlarmSetScene {
    pub closed spec fn step_state(self) -> AlarmSetState {
        self.state
    }

    pub closed spec fn chosen_time(self) -> Option<u32> {
        self.time
    }

    pub closed spec fn chosen_days(self) -> Option<Set<u8>> {
        match self.days {
            Some(d) => Some(weekday_set_days(d)),
            None => None,
        }
    }

    pub fn new() -> (r: Self)
        ensures
            r.step_state() == AlarmSetState::GettingTime,
            r.chosen_time() is None,
            r.chosen_days() is None,
    {
        AlarmSetScene { state: AlarmSetState::GettingTime, time: None, days: None }
    }

    /// One step: first hands over to the time entry screen, starting at the time set now;
    /// then takes the time entered (`time_out`) and hands over to the day selection, starting
    /// at the days set now; then takes the days selected (`weekday_out`) and goes home.
    pub fn tick(&mut self, config: &AlarmConfig, time_out: u32, weekday_out: WeekdaySet) -> (r:
        AlarmStep)
        requires
            config_time(*config) < SECONDS_PER_DAY,
        ensures
            old(self).step_state() == AlarmSetState::GettingTime ==> {
                &&& final(self).step_state() == AlarmSetState::GettingDay
                &&& final(self).chosen_time() == old(self).chosen_time()
                &&& final(self).chosen_days() == old(self).chosen_days()
                &&& r matches AlarmStep::EnterTime(s) && {
                    &&& s.entry_state() == DateEntryState::SelectField
                    &&& s.entry_time() == config_time(*config)
                    &&& s.entry_date() == (DateValue { year: 2025, month: 1, day: 1 })
                    &&& s.field() == FieldOption::Hour
                    &&& s.needs_time() && !s.needs_date()
                    &&& s.title() == "ALARM TIME?"@
                }
            },
            old(self).step_state() == AlarmSetState::GettingDay ==> {
                &&& final(self).step_state() == AlarmSetState::GotDay
                &&& final(self).chosen_time() == if old(self).chosen_time() is None {
                    Some(time_out)
                } else {
                    old(self).chosen_time()
                }
                &&& final(self).chosen_days() == old(self).chosen_days()
                &&& r matches AlarmStep::SelectDays(s) && {
                    &&& s.cursor() == 0
                    &&& s.picked() == config_days(*config)
                    &&& s.needed() == 1
                    &&& s.text() == "WHAT DAYS?"@
                }
            },
            old(self).step_state() == AlarmSetState::GotDay ==> {
                &&& final(self).step_state() == AlarmSetState::GotDay
                &&& final(self).chosen_time() == old(self).chosen_time()
                &&& final(self).chosen_days() == if old(self).chosen_days() is None {
                    Some(weekday_set_days(weekday_out))
                } else {
                    old(self).chosen_days()
                }
                &&& r is Home
            },
    {
        match self.state {
            AlarmSetState::GettingTime => {
                self.state = AlarmSetState::GettingDay;
                let time = match config {
                    AlarmConfig::Off => 0,
                    AlarmConfig::Time { days: _, time } => *time,
                };
                AlarmStep::EnterTime(
                    EnterDateScene::new(Required::Time, "ALARM TIME?".to_owned()).with_time(time),
                )
            },
            AlarmSetState::GettingDay => {
                self.state = AlarmSetState::GotDay;
                if self.time.is_none() {
                    self.time = Some(time_out);
                }
                let days = match config {
                    AlarmConfig::Off => weekday_set_empty(),
                    AlarmConfig::Time { days, time: _ } => *days,
                };
                AlarmStep::SelectDays(
                    WeekdaySelectScene::new(1, "WHAT DAYS?".to_owned()).with_days(days),
                )
            },
            AlarmSetState::GotDay => {
                if self.days.is_none() {
                    self.days = Some(weekday_out);
                }
                AlarmStep::Home
            },
        }
    }

    /// The setting to keep when the screen closes: the time and days chosen, once both are.
    pub fn teardown(&self) -> (r: Option<AlarmConfig>)
        ensures
            match (self.chosen_time(), self.chosen_days()) {
                (Some(t), Some(d)) => r matches Some(AlarmConfig::Time { days, time }) && time == t
                    && weekday_set_days(days) == d,
                _ => r is None,
            },
    {
        match (self.days, self.time) {
            (Some(days), Some(time)) => Some(AlarmConfig::Time { days, time }),
            _ => None,
        }
    }
}

} // verus!
