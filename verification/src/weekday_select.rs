//! The screen for picking days of the week.
use vstd::prelude::*;

use chrono::{Weekday, WeekdaySet};

verus! {

/// The set-of-weekdays type of `chrono`.
#[verifier::external_type_specification]
#[verifier::external_body]
pub struct ExWeekdaySet(WeekdaySet);

/// The days a `WeekdaySet` holds, each as its number of days from Monday (0 to 6).
pub uninterp spec fn weekday_set_days(s: WeekdaySet) -> Set<u8>;

/// `chrono::WeekdaySet::EMPTY`, which holds no day.
#[verifier::external_body]
pub(crate) fn weekday_set_empty() -> (r: WeekdaySet)
    ensures
        weekday_set_days(r) == Set::<u8>::empty(),
{
    WeekdaySet::EMPTY
}

/// Calls `chrono::WeekdaySet::contains` for the day `day` days from Monday; it tells
/// whether the set holds that day.
#[verifier::external_body]
fn weekday_set_contains(s: &WeekdaySet, day: u8) -> (r: bool)
    requires
        day < 7,
    ensures
        r == weekday_set_days(*s).contains(day),
{
    s.contains(Weekday::try_from(day).unwrap())
}

/// Calls `chrono::WeekdaySet::insert` for the day `day` days from Monday; afterwards the
/// set holds that day as well, and the result tells whether it was new to the set.
#[verifier::external_body]
fn weekday_set_insert(s: &mut WeekdaySet, day: u8) -> (r: bool)
    requires
        day < 7,
    ensures
        weekday_set_days(*final(s)) == weekday_set_days(*old(s)).insert(day),
        r == !weekday_set_days(*old(s)).contains(day),
{
    s.insert(Weekday::try_from(day).unwrap())
}

/// Calls `chrono::WeekdaySet::remove` for the day `day` days from Monday; afterwards the
/// set no longer holds that day, and the result tells whether it held it.
#[verifier::external_body]
fn weekday_set_remove(s: &mut WeekdaySet, day: u8) -> (r: bool)
    requires
        day < 7,
    ensures
        weekday_set_days(*final(s)) == weekday_set_days(*old(s)).remove(day),
        r == weekday_set_days(*old(s)).contains(day),
{
    s.remove(Weekday::try_from(day).unwrap())
}

/// Number of the days Monday to the `n`-th day of the week that `days` holds.
pub open spec fn count_days(days: Set<u8>, n: nat) -> nat
    decreases n,
{
    if n == 0 {
        0
    } else {
        count_days(days, (n - 1) as nat) + if days.contains((n - 1) as u8) {
            1nat
        } else {
            0nat
        }
    }
}

/// The set with `day` taken out if it held it, put in otherwise.
pub open spec fn toggle_day(days: Set<u8>, day: u8) -> Set<u8> {
    if days.contains(day) {
        days.remove(day)
    } else {
        days.insert(day)
    }
}

/// What a tick of the weekday screen asks of the game.
#[derive(Clone, Copy, Debug, PartialEq, Eq, Structural)]
pub enum WeekdayAction {
    /// Nothing.
    Stay,
    /// Fewer days than needed are picked: play the error sound.
    Error,
    /// Done: go back to the screen that asked.
    Done,
}

/// The weekday screen: the cursor (a day from Monday = 0 to Sunday = 6, or -1 for the
/// submit button), the days picked, and how many must be picked.
pub struct WeekdaySelectScene {
    current: i8,
    days: WeekdaySet,
    min_select: u8,
    display_text: String,
}

impl WeekdaySelectScene {
    #[verifier::type_invariant]
    spec fn wf(self) -> bool {
        -1 <= self.current <= 6
    }

    pub closed spec fn cursor(self) -> int {
        self.current as int
    }

    pub closed spec fn picked(self) -> Set<u8> {
        weekday_set_days(self.days)
    }

    pub closed spec fn needed(self) -> int {
        self.min_select as int
    }

    pub closed spec fn text(self) -> Seq<char> {
        self.display_text@
    }

    /// Cursor on Monday, no day picked.
    pub fn new(min_select: u8, display_text: String) -> (r: Self)
        ensures
            r.cursor() == 0,
            r.picked() == Set::<u8>::empty(),
            r.needed() == min_select,
            r.text() == display_text@,
    {
        WeekdaySelectScene { current: 0, days: weekday_set_empty(), min_select, display_text }
    }

    /// The same screen with `days` picked.
    pub fn with_days(self, days: WeekdaySet) -> (r: Self)
        ensures
            r.picked() == weekday_set_days(days),
            r.cursor() == self.cursor(),
            r.needed() == self.needed(),
            r.text() == self.text(),
    {
        proof {
            use_type_invariant(&self);
        }
        let mut s = self;
        s.days = days;
        s
    }

    /// The days picked.
    pub fn days(&self) -> (r: WeekdaySet)
        ensures
            weekday_set_days(r) == self.picked(),
    {
        self.days
    }

    /// One tick with the buttons pressed: left and right move the cursor through the days
    /// and the submit button, wrapping at both ends; middle on a day picks or unpicks it,
    /// and on the submit button closes the screen if enough days are picked.
    pub fn tick(&mut self, left: bool, right: bool, middle: bool) -> (r: WeekdayAction)
        ensures
            ({
                let moved = old(self).cursor() + (if left {
                    -1int
                } else {
                    0
                }) + (if right {
                    1int
                } else {
                    0
                });
                let cursor = if moved >= 7 {
                    -1
                } else if moved < -1 {
                    6
                } else {
                    moved
                };
                &&& final(self).cursor() == cursor
                &&& final(self).needed() == old(self).needed()
                &&& final(self).text() == old(self).text()
                &&& if middle && 0 <= cursor < 7 {
                    r == WeekdayAction::Stay && final(self).picked() == toggle_day(
                        old(self).picked(),
                        cursor as u8,
                    )
                } else if middle {
                    final(self).picked() == old(self).picked() && r == if count_days(
                        old(self).picked(),
                        7,
                    ) < old(self).needed() {
                        WeekdayAction::Error
                    } else {
                        WeekdayAction::Done
                    }
                } else {
                    r == WeekdayAction::Stay && final(self).picked() == old(self).picked()
                }
            }),
    {
        proof {
            use_type_invariant(&*self);
        }
        let mut current = self.current;
        if left {
            current = current - 1;
        }
        if right {
            current = current + 1;
        }
        if current >= 7 {
            current = -1;
        } else if current < -1 {
            current = 6;
        }
        self.current = current;
        if middle {
            if self.current >= 0 && self.current < 7 {
                let day: u8 = self.current as u8;
                let mut days = self.days;
                if weekday_set_contains(&days, day) {
                    weekday_set_remove(&mut days, day);
                } else {
                    weekday_set_insert(&mut days, day);
                }
                self.days = days;
            } else {
                let mut selected_count: usize = 0;
                let mut d: u8 = 0;
                while d < 7
                    invariant
                        d <= 7,
                        selected_count == count_days(weekday_set_days(self.days), d as nat),
                        selected_count <= d,
                    decreases 7 - d,
                {
                    if weekday_set_contains(&self.days, d) {
                        selected_count = selected_count + 1;
                    }
                    d = d + 1;
                }
                if selected_count < self.min_select as usize {
                    return WeekdayAction::Error;
                } else {
                    return WeekdayAction::Done;
                }
            }
        }
        WeekdayAction::Stay
    }
}

/// Picking the same day twice leaves the picked days as they were.
pub proof fn lemma_toggle_day_twice(days: Set<u8>, day: u8)
    ensures
        toggle_day(toggle_day(days, day), day) == days,
{
    if days.contains(day) {
        assert(days.remove(day).insert(day) =~= days);
    } else {
        assert(days.insert(day).remove(day) =~= days);
    }
}

} // verus!
