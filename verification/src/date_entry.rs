//! Moving between the fields of the date and time entry screen.
use vstd::prelude::*;

use crate::calendar::{
    date_from_ymd, step_day, step_month, step_time, time_shift, valid_date, valid_ymd, DateValue,
    MAX_DATE_YEAR, MIN_DATE_YEAR, SECONDS_PER_DAY,
};
use crate::scene::SceneManger;

verus! {

/// What the date entry screen asks for.
#[derive(Clone, Copy, Debug, PartialEq, Eq, Structural)]
pub enum Required {
    Date,
    Time,
    DateTime,
}

/// A field of the date entry screen, or its submit button.
#[derive(Clone, Copy, Debug, PartialEq, Eq, Structural)]
pub enum FieldOption {
    Year,
    Month,
    Day,
    Hour,
    Miniute,
    Second,
    Submit,
}

/// The field to the right of `f`; `date` and `time` tell whether those fields are shown.
pub open spec fn next_field(f: FieldOption, date: bool, time: bool) -> FieldOption {
    match f {
        FieldOption::Year => FieldOption::Month,
        FieldOption::Month => FieldOption::Day,
        FieldOption::Day => if time {
            FieldOption::Hour
        } else {
            FieldOption::Submit
        },
        FieldOption::Hour => FieldOption::Miniute,
        FieldOption::Miniute => FieldOption::Second,
        FieldOption::Second => FieldOption::Submit,
        FieldOption::Submit => if date {
            FieldOption::Year
        } else {
            FieldOption::Hour
        },
    }
}

/// The field to the left of `f`; `date` and `time` tell whether those fields are shown.
pub open spec fn prev_field(f: FieldOption, date: bool, time: bool) -> FieldOption {
    match f {
        FieldOption::Year => FieldOption::Submit,
        FieldOption::Month => FieldOption::Year,
        FieldOption::Day => FieldOption::Month,
        FieldOption::Hour => if time {
            FieldOption::Submit
        } else {
            FieldOption::Day
        },
        FieldOption::Miniute => FieldOption::Hour,
        FieldOption::Second => FieldOption::Miniute,
        FieldOption::Submit => if date {
            FieldOption::Year
        } else {
            FieldOption::Miniute
        },
    }
}

impl FieldOption {
    /// The field to the right; `date` and `time` tell whether those fields are shown.
    pub fn next(&self, date: bool, time: bool) -> (r: Self)
        ensures
            r == next_field(*self, date, time),
    {
        match self {
            FieldOption::Year => FieldOption::Month,
            FieldOption::Month => FieldOption::Day,
            FieldOption::Day => {
                if time {
                    FieldOption::Hour
                } else {
                    FieldOption::Submit
                }
            },
            FieldOption::Hour => FieldOption::Miniute,
            FieldOption::Miniute => FieldOption::Second,
            FieldOption::Second => FieldOption::Submit,
            FieldOption::Submit => {
                if date {
                    FieldOption::Year
                } else {
                    FieldOption::Hour
                }
            },
        }
    }

    /// The field to the left; `date` and `time` tell whether those fields are shown.
    pub fn prev(&self, date: bool, time: bool) -> (r: Self)
        ensures
            r == prev_field(*self, date, time),
    {
        match self {
            FieldOption::Year => FieldOption::Submit,
            FieldOption::Month => FieldOption::Year,
            FieldOption::Day => FieldOption::Month,
            FieldOption::Hour => {
                if time {
                    FieldOption::Submit
                } else {
                    FieldOption::Day
                }
            },
            FieldOption::Miniute => FieldOption::Hour,
            FieldOption::Second => FieldOption::Miniute,
            FieldOption::Submit => {
                if date {
                    FieldOption::Year
                } else {
                    FieldOption::Miniute
                }
            },
        }
    }
}

/// Whether the cursor moves between fields or changes the value of the selected field.
#[derive(Clone, Copy, Debug, PartialEq, Eq, Structural)]
pub enum DateEntryState {
    SelectField,
    SelectValue,
}

/// What a tick of the date entry screen hands back: nothing yet, or the date and the time
/// of day (seconds after midnight) entered, when submit is pressed.
#[derive(Clone, Copy, Debug, PartialEq, Eq, Structural)]
pub enum DateEntryAction {
    Stay,
    Submit { date: DateValue, time: u32 },
}

/// Whether a date lies strictly inside the years a `chrono` date can hold, so that the year
/// can be moved by one either way.
pub open spec fn year_movable(d: DateValue) -> bool {
    valid_date(d) && MIN_DATE_YEAR < d.year < MAX_DATE_YEAR
}

/// The date one year from `d` (`delta` is 1 or -1) on the same month and day, or on the
/// first of January of that year when that day does not exist there.
pub open spec fn year_moved(d: DateValue, delta: int) -> DateValue {
    if valid_ymd(d.year + delta, d.month as int, d.day as int) {
        DateValue { year: (d.year + delta) as i32, month: d.month, day: d.day }
    } else {
        DateValue { year: (d.year + delta) as i32, month: 1, day: 1 }
    }
}

/// Date and time after one step (`delta` is 1 or -1) of the value of `field`.
pub open spec fn value_moved(d: DateValue, t: int, field: FieldOption, delta: int) -> (
    DateValue,
    int,
) {
    match field {
        FieldOption::Year => (year_moved(d, delta), t),
        FieldOption::Month => (
            match crate::calendar::month_shift(d, delta) {
                Some(n) => n,
                None => d,
            },
            t,
        ),
        FieldOption::Day => (
            match crate::calendar::day_shift(d, delta > 0) {
                Some(n) => n,
                None => d,
            },
            t,
        ),
        FieldOption::Hour => (d, time_shift(t, 3600 * delta)),
        FieldOption::Miniute => (d, time_shift(t, 60 * delta)),
        FieldOption::Second => (d, time_shift(t, delta)),
        FieldOption::Submit => (d, t),
    }
}

/// A date moved back into the years `start..=end`: before them it becomes the first of
/// January of `start`, after them the first of January of `end`.
pub open spec fn year_clamped(d: DateValue, start: int, end: int) -> DateValue {
    let d1 = if d.year < start {
        DateValue { year: start as i32, month: 1, day: 1 }
    } else {
        d
    };
    if d1.year > end {
        DateValue { year: end as i32, month: 1, day: 1 }
    } else {
        d1
    }
}

/// Date and time after a tick that changes the value of `field`: left steps it back, then
/// right steps it forward, then the year is moved back into `start..=end`.
pub open spec fn value_after_press(
    d: DateValue,
    t: int,
    field: FieldOption,
    left: bool,
    right: bool,
    start: int,
    end: int,
) -> (DateValue, int) {
    let a = if left {
        value_moved(d, t, field, -1)
    } else {
        (d, t)
    };
    let b = if right {
        value_moved(a.0, a.1, field, 1)
    } else {
        a
    };
    (year_clamped(b.0, start, end), b.1)
}

/// The field selected after a tick that moves between fields: left, then right.
pub open spec fn field_after_press(
    f: FieldOption,
    left: bool,
    right: bool,
    date: bool,
    time: bool,
) -> FieldOption {
    let a = if left {
        prev_field(f, date, time)
    } else {
        f
    };
    if right {
        next_field(a, date, time)
    } else {
        a
    }
}

/// After a tick that changes a value with `start <= end`, the year lies in `start..=end`;
/// and a step of the hour, minute or second forward and back returns the time it started at.
pub proof fn lemma_value_edit_laws(
    d: DateValue,
    t: int,
    field: FieldOption,
    left: bool,
    right: bool,
    start: i32,
    end: i32,
)
    requires
        start <= end,
        0 <= t < SECONDS_PER_DAY,
    ensures
        start <= value_after_press(d, t, field, left, right, start as int, end as int).0.year <= end,
        field == FieldOption::Hour || field == FieldOption::Miniute || field
            == FieldOption::Second ==> value_moved(
            d,
            value_moved(d, t, field, 1).1,
            field,
            -1,
        ).1 == t,
{
    crate::calendar::lemma_time_step_inverse(t, 3600);
    crate::calendar::lemma_time_step_inverse(t, 60);
    crate::calendar::lemma_time_step_inverse(t, 1);
}

/// The date and time after one step (`delta` is 1 or -1) of the value of `field`.
fn moved_value(date: DateValue, time: u32, field: FieldOption, delta: i64) -> (r: (DateValue, u32))
    requires
        delta == 1 || delta == -1,
        field != FieldOption::Submit,
        valid_date(date),
        time < SECONDS_PER_DAY,
        field == FieldOption::Year ==> MIN_DATE_YEAR <= date.year + delta <= MAX_DATE_YEAR,
    ensures
        r.0 == value_moved(date, time as int, field, delta as int).0,
        r.1 == value_moved(date, time as int, field, delta as int).1,
        field == FieldOption::Hour ==> r.0 == date && r.1 == (time + 3600 * delta) % 86400,
        field == FieldOption::Miniute ==> r.0 == date && r.1 == (time + 60 * delta) % 86400,
        field == FieldOption::Second ==> r.0 == date && r.1 == (time + delta) % 86400,
        valid_date(r.0),
        r.1 < SECONDS_PER_DAY,
{
    match field {
        FieldOption::Year => {
            let y: i32 = date.year + delta as i32;
            let fallback = date_from_ymd(y, 1, 1);
            let same_day = date_from_ymd(y, date.month, date.day);
            let moved = match same_day {
                Some(n) => n,
                None => fallback.unwrap(),
            };
            (moved, time)
        },
        FieldOption::Month => (step_month(date, delta > 0), time),
        FieldOption::Day => (step_day(date, delta > 0), time),
        FieldOption::Hour => (date, step_time(time, 3600 * delta)),
        FieldOption::Miniute => (date, step_time(time, 60 * delta)),
        FieldOption::Second => (date, step_time(time, delta)),
        FieldOption::Submit => (date, time),
    }
}

/// What a tick of the date entry screen does: the screen `a` becomes `b` and hands back
/// `r` (see `EnterDateScene::tick`).
pub open spec fn date_tick_post(
    a: EnterDateScene,
    b: EnterDateScene,
    left: bool,
    right: bool,
    middle: bool,
    start_year: i32,
    end_year: i32,
    r: DateEntryAction,
) -> bool {
    &&& (b.needs_date() == a.needs_date())
    &&& (b.needs_time() == a.needs_time())
    &&& (b.title() == a.title())
    &&& (a.entry_state() == DateEntryState::SelectField ==> {
                let f = field_after_press(
                    a.field(),
                    left,
                    right,
                    a.needs_date(),
                    a.needs_time(),
                );
                &&& b.field() == f
                &&& b.entry_date() == a.entry_date()
                &&& b.entry_time() == a.entry_time()
                &&& b.entry_state() == if middle && f != FieldOption::Submit {
                    DateEntryState::SelectValue
                } else {
                    DateEntryState::SelectField
                }
                &&& r == if middle && f == FieldOption::Submit {
                    DateEntryAction::Submit {
                        date: a.entry_date(),
                        time: a.entry_time() as u32,
                    }
                } else {
                    DateEntryAction::Stay
                }
            })
    &&& (a.entry_state() == DateEntryState::SelectValue ==> {
                let v = value_after_press(
                    a.entry_date(),
                    a.entry_time(),
                    a.field(),
                    left,
                    right,
                    start_year as int,
                    end_year as int,
                );
                &&& b.field() == a.field()
                &&& b.entry_date() == v.0
                &&& b.entry_time() == v.1
                &&& b.entry_state() == if middle {
                    DateEntryState::SelectField
                } else {
                    DateEntryState::SelectValue
                }
                &&& r == DateEntryAction::Stay
            })
}

/// The screen that asks for a date, a time of day, or both.
pub struct EnterDateScene {
    state: DateEntryState,
    date: DateValue,
    time: u32,
    selected: FieldOption,
    need_date: bool,
    need_time: bool,
    display_text: String,
}

impl EnterDateScene {
    #[verifier::type_invariant]
    spec fn wf(self) -> bool {
        &&& year_movable(self.date)
        &&& self.time < SECONDS_PER_DAY
        &&& self.state == DateEntryState::SelectValue ==> self.selected != FieldOption::Submit
    }

    pub closed spec fn entry_state(self) -> DateEntryState {
        self.state
    }

    pub closed spec fn entry_date(self) -> DateValue {
        self.date
    }

    /// Seconds after midnight.
    pub closed spec fn entry_time(self) -> int {
        self.time as int
    }

    pub closed spec fn field(self) -> FieldOption {
        self.selected
    }

    pub closed spec fn needs_date(self) -> bool {
        self.need_date
    }

    pub closed spec fn needs_time(self) -> bool {
        self.need_time
    }

    pub closed spec fn title(self) -> Seq<char> {
        self.display_text@
    }

    /// The screen on the first of January 2025 at midnight, with the cursor on the year, or
    /// on the hour when only a time is asked for.
    pub fn new(required: Required, display_text: String) -> (r: Self)
        ensures
            r.entry_state() == DateEntryState::SelectField,
            r.entry_date() == (DateValue { year: 2025, month: 1, day: 1 }),
            r.entry_time() == 0,
            r.field() == (match required {
                Required::Date | Required::DateTime => FieldOption::Year,
                Required::Time => FieldOption::Hour,
            }),
            r.needs_date() == (required == Required::Date || required == Required::DateTime),
            r.needs_time() == (required == Required::Time || required == Required::DateTime),
            r.title() == display_text@,
    {
        let date = date_from_ymd(2025, 1, 1).unwrap();
        EnterDateScene {
            state: DateEntryState::SelectField,
            date,
            time: 0,
            selected: match required {
                Required::Date | Required::DateTime => FieldOption::Year,
                Required::Time => FieldOption::Hour,
            },
            need_date: matches!(required, Required::Date) || matches!(required, Required::DateTime),
            need_time: matches!(required, Required::Time) || matches!(required, Required::DateTime),
            display_text,
        }
    }

    /// The same screen starting at the time of day `time` (seconds after midnight).
    pub fn with_time(self, time: u32) -> (r: Self)
        requires
            time < SECONDS_PER_DAY,
        ensures
            r.entry_time() == time,
            r.entry_date() == self.entry_date(),
            r.entry_state() == self.entry_state(),
            r.field() == self.field(),
            r.needs_date() == self.needs_date(),
            r.needs_time() == self.needs_time(),
            r.title() == self.title(),
    {
        proof {
            use_type_invariant(&self);
        }
        EnterDateScene { time, ..self }
    }

    /// The same screen starting at the date `date`.
    pub fn with_date(self, date: DateValue) -> (r: Self)
        requires
            year_movable(date),
        ensures
            r.entry_date() == date,
            r.entry_time() == self.entry_time(),
            r.entry_state() == self.entry_state(),
            r.field() == self.field(),
            r.needs_date() == self.needs_date(),
            r.needs_time() == self.needs_time(),
            r.title() == self.title(),
    {
        proof {
            use_type_invariant(&self);
        }
        EnterDateScene { date, ..self }
    }

    /// One frame of the screen. Moving between fields, left and right select the field to
    /// either side and the middle button submits the date and time on the submit button, or
    /// starts changing the selected field. Changing a field, left steps its value back and
    /// right forward; the year is then kept in `start_year..=end_year`, and the middle button
    /// goes back to moving between fields.
    pub fn tick(
        &mut self,
        left: bool,
        right: bool,
        middle: bool,
        start_year: i32,
        end_year: i32,
    ) -> (r: DateEntryAction)
        requires
            MIN_DATE_YEAR < start_year < MAX_DATE_YEAR,
            MIN_DATE_YEAR < end_year < MAX_DATE_YEAR,
        ensures
            date_tick_post(*old(self), *final(self), left, right, middle, start_year, end_year, r),
    {
        proof {
            use_type_invariant(&*self);
        }
        match self.state {
            DateEntryState::SelectField => {
                if left {
                    self.selected = self.selected.prev(self.need_date, self.need_time);
                }
                if right {
                    self.selected = self.selected.next(self.need_date, self.need_time);
                }
                if middle {
                    if matches!(self.selected, FieldOption::Submit) {
                        return DateEntryAction::Submit { date: self.date, time: self.time };
                    }
                    self.state = DateEntryState::SelectValue;
                }
                DateEntryAction::Stay
            },
            DateEntryState::SelectValue => {
                let mut date = self.date;
                let mut time = self.time;
                if left {
                    let moved = moved_value(date, time, self.selected, -1);
                    date = moved.0;
                    time = moved.1;
                }
                if right {
                    let moved = moved_value(date, time, self.selected, 1);
                    date = moved.0;
                    time = moved.1;
                }
                if date.year < start_year {
                    date = date_from_ymd(start_year, 1, 1).unwrap();
                }
                if date.year > end_year {
                    date = date_from_ymd(end_year, 1, 1).unwrap();
                }
                self.date = date;
                self.time = time;
                if middle {
                    self.state = DateEntryState::SelectField;
                }
                DateEntryAction::Stay
            },
        }
    }
}

/// Where a finished date entry leaves the date and the time of day (seconds after midnight)
/// for the screen that asked for them.
#[derive(Clone, Copy, Debug, PartialEq, Eq, Structural)]
pub struct SharedDateOut {
    pub date_out: DateValue,
    pub time_out: u32,
}

/// One frame of the date entry screen in the game: the screen ticks (see
/// `EnterDateScene::tick`); on submit the date and time are left in `shared`, and the scene
/// left last is taken out of `manager` and asked for next. The scene left last must be there
/// when submit is pressed.
pub fn enter_date_frame<S>(
    scene: &mut EnterDateScene,
    shared: &mut SharedDateOut,
    manager: &mut SceneManger<S>,
    left: bool,
    right: bool,
    middle: bool,
    start_year: i32,
    end_year: i32,
) -> (r: DateEntryAction)
    requires
        MIN_DATE_YEAR < start_year < MAX_DATE_YEAR,
        MIN_DATE_YEAR < end_year < MAX_DATE_YEAR,
        old(scene).entry_state() == DateEntryState::SelectField && middle && field_after_press(
            old(scene).field(),
            left,
            right,
            old(scene).needs_date(),
            old(scene).needs_time(),
        ) == FieldOption::Submit ==> old(manager).last() is Some,
    ensures
        date_tick_post(*old(scene), *final(scene), left, right, middle, start_year, end_year, r),
        match r {
            DateEntryAction::Submit { date, time } => {
                &&& *final(shared) == (SharedDateOut { date_out: date, time_out: time })
                &&& final(manager).pending() == old(manager).last()
                &&& final(manager).last() is None
                &&& final(manager).active() == old(manager).active()
                &&& final(manager).is_first_loop() == old(manager).is_first_loop()
            },
            DateEntryAction::Stay => *final(shared) == *old(shared) && *final(manager) == *old(
                manager,
            ),
        },
{
    let r = scene.tick(left, right, middle, start_year, end_year);
    match r {
        DateEntryAction::Submit { date, time } => {
            shared.date_out = date;
            shared.time_out = time;
            let last = manager.take_last_scene();
            match last {
                Some(previous) => {
                    manager.set_next(previous);
                },
                None => {},
            }
        },
        DateEntryAction::Stay => {},
    }
    r
}

/// A step of a time field moves the time of day, around midnight, by exactly one hour, one
/// minute or one second, and leaves the date as it is; sixty minute steps make one hour step.
pub proof fn lemma_time_field_steps(d: DateValue, t: int, delta: int)
    requires
        0 <= t < 86400,
    ensures
        value_moved(d, t, FieldOption::Hour, delta) == (d, (t + 3600 * delta) % 86400),
        value_moved(d, t, FieldOption::Miniute, delta) == (d, (t + 60 * delta) % 86400),
        value_moved(d, t, FieldOption::Second, delta) == (d, (t + delta) % 86400),
        value_moved(d, t, FieldOption::Hour, delta).1 == (t + 60 * (60 * delta)) % 86400,
{
}

} // verus!
