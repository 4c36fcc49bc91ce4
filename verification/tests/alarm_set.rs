use chrono::{Weekday, WeekdaySet};
use sdop_game::alarm_set::{AlarmConfig, AlarmSetScene, AlarmStep};
use sdop_game::date_entry::DateEntryAction;

#[test]
fn alarm_screen_asks_time_then_days() {
    let mut scene = AlarmSetScene::new();
    let config = AlarmConfig::Time { days: WeekdaySet::single(Weekday::Tue), time: 7 * 3600 };
    let mut time_screen = match scene.tick(&config, 0, WeekdaySet::EMPTY) {
        AlarmStep::EnterTime(s) => s,
        _ => panic!("expected the time entry screen"),
    };
    // The time screen starts at the time set; left from the hour goes to submit.
    time_screen.tick(true, false, false, 2000, 2100);
    assert_eq!(
        time_screen.tick(false, false, true, 2000, 2100),
        DateEntryAction::Submit { date: sdop_game::calendar::DateValue { year: 2025, month: 1, day: 1 }, time: 7 * 3600 }
    );
    let days_screen = match scene.tick(&config, 8 * 3600, WeekdaySet::EMPTY) {
        AlarmStep::SelectDays(s) => s,
        _ => panic!("expected the day selection screen"),
    };
    assert!(days_screen.days().contains(Weekday::Tue));
    assert!(scene.teardown().is_none());
    let chosen = WeekdaySet::single(Weekday::Fri);
    assert!(matches!(scene.tick(&config, 0, chosen), AlarmStep::Home));
    match scene.teardown() {
        Some(AlarmConfig::Time { days, time }) => {
            assert_eq!(time, 8 * 3600);
            assert_eq!(days, chosen);
        }
        _ => panic!("expected an alarm time"),
    }
}

#[test]
fn alarm_screen_starts_at_midnight_when_off() {
    let mut scene = AlarmSetScene::new();
    let mut time_screen = match scene.tick(&AlarmConfig::Off, 0, WeekdaySet::EMPTY) {
        AlarmStep::EnterTime(s) => s,
        _ => panic!("expected the time entry screen"),
    };
    time_screen.tick(true, false, false, 2000, 2100);
    assert!(matches!(
        time_screen.tick(false, false, true, 2000, 2100),
        DateEntryAction::Submit { time: 0, .. }
    ));
}
