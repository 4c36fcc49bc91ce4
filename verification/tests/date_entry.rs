use sdop_game::calendar::{step_day, step_month, step_time, DateValue};
use sdop_game::date_entry::{
    enter_date_frame, DateEntryAction, EnterDateScene, FieldOption, Required, SharedDateOut,
};
use sdop_game::scene::SceneManger;

fn date(year: i32, month: u32, day: u32) -> DateValue {
    DateValue { year, month, day }
}

const START: i32 = 2020;
const END: i32 = 2060;

fn press(scene: &mut EnterDateScene, left: bool, right: bool, middle: bool) -> DateEntryAction {
    scene.tick(left, right, middle, START, END)
}

#[test]
fn date_only_screen_submits_its_start_date() {
    let mut scene = EnterDateScene::new(Required::Date, String::from("BIRTHDAY?"));
    // Year -> Month -> Day -> Submit (no time fields).
    for _ in 0..3 {
        assert_eq!(press(&mut scene, false, true, false), DateEntryAction::Stay);
    }
    assert_eq!(
        press(&mut scene, false, false, true),
        DateEntryAction::Submit { date: date(2025, 1, 1), time: 0 }
    );
}

#[test]
fn editing_the_year_and_submitting() {
    let mut scene = EnterDateScene::new(Required::Date, String::from("DATE?"));
    assert_eq!(press(&mut scene, false, false, true), DateEntryAction::Stay);
    assert_eq!(press(&mut scene, false, true, false), DateEntryAction::Stay);
    assert_eq!(press(&mut scene, false, true, true), DateEntryAction::Stay);
    // Back on the fields; left from the year goes to submit.
    assert_eq!(press(&mut scene, true, false, false), DateEntryAction::Stay);
    assert_eq!(
        press(&mut scene, false, false, true),
        DateEntryAction::Submit { date: date(2027, 1, 1), time: 0 }
    );
}

#[test]
fn month_step_uses_the_last_day_of_a_shorter_month() {
    let mut scene =
        EnterDateScene::new(Required::Date, String::from("DATE?")).with_date(date(2025, 1, 31));
    press(&mut scene, false, true, false); // Month
    press(&mut scene, false, false, true); // edit
    press(&mut scene, false, true, true); // +1 month, back to the fields
    press(&mut scene, false, true, false); // Day
    press(&mut scene, false, true, false); // Submit
    assert_eq!(
        press(&mut scene, false, false, true),
        DateEntryAction::Submit { date: date(2025, 2, 28), time: 0 }
    );
}

#[test]
fn year_step_from_leap_day_falls_back_to_new_year() {
    let mut scene =
        EnterDateScene::new(Required::Date, String::from("DATE?")).with_date(date(2024, 2, 29));
    press(&mut scene, false, false, true);
    press(&mut scene, false, true, true);
    press(&mut scene, true, false, false);
    assert_eq!(
        press(&mut scene, false, false, true),
        DateEntryAction::Submit { date: date(2025, 1, 1), time: 0 }
    );
}

#[test]
fn year_is_kept_within_the_allowed_years() {
    let mut scene =
        EnterDateScene::new(Required::Date, String::from("DATE?")).with_date(date(2060, 6, 15));
    press(&mut scene, false, false, true);
    press(&mut scene, false, true, true); // 2061 is past the end: first of January 2060
    press(&mut scene, true, false, false);
    assert_eq!(
        press(&mut scene, false, false, true),
        DateEntryAction::Submit { date: date(2060, 1, 1), time: 0 }
    );
    let mut scene =
        EnterDateScene::new(Required::Date, String::from("DATE?")).with_date(date(2020, 6, 15));
    press(&mut scene, false, false, true);
    press(&mut scene, true, false, true); // 2019 is before the start
    press(&mut scene, true, false, false);
    assert_eq!(
        press(&mut scene, false, false, true),
        DateEntryAction::Submit { date: date(2020, 1, 1), time: 0 }
    );
}

#[test]
fn hour_wraps_around_midnight() {
    let mut scene = EnterDateScene::new(Required::Time, String::from("ALARM TIME?"));
    press(&mut scene, false, false, true); // edit the hour
    press(&mut scene, true, false, true); // one hour back: 23:00
    // Hour -> Minute -> Second -> Submit
    for _ in 0..3 {
        press(&mut scene, false, true, false);
    }
    assert_eq!(
        press(&mut scene, false, false, true),
        DateEntryAction::Submit { date: date(2025, 1, 1), time: 23 * 3600 }
    );
}

#[test]
fn time_only_screen_skips_the_date_fields() {
    let mut scene = EnterDateScene::new(Required::Time, String::from("TIME?")).with_time(3661);
    // Left from the hour goes to submit.
    press(&mut scene, true, false, false);
    assert_eq!(
        press(&mut scene, false, false, true),
        DateEntryAction::Submit { date: date(2025, 1, 1), time: 3661 }
    );
    assert!(matches!(FieldOption::Submit.next(false, true), FieldOption::Hour));
}

#[test]
fn chrono_steps() {
    // The year step keeps the day when it exists in the new year, and falls back otherwise.
    assert_eq!(step_day(date(2024, 2, 28), true), date(2024, 2, 29));
    assert_eq!(step_day(date(2023, 2, 28), true), date(2023, 3, 1));
    assert_eq!(step_month(date(2022, 7, 31), true), date(2022, 8, 31));
    assert_eq!(step_month(date(2022, 3, 31), false), date(2022, 2, 28));
    assert_eq!(step_month(date(2022, 12, 5), true), date(2023, 1, 5));
    assert_eq!(step_day(date(2022, 12, 31), true), date(2023, 1, 1));
    assert_eq!(step_day(date(2024, 3, 1), false), date(2024, 2, 29));
    assert_eq!(step_day(date(262142, 12, 31), true), date(262142, 12, 31));
    assert_eq!(step_time(0, -1), 86399);
    assert_eq!(step_time(86399, 60), 59);
    assert_eq!(step_time(3600, 3600), 7200);
}

#[test]
fn submit_hands_the_date_back_to_the_last_scene() {
    let mut scene = EnterDateScene::new(Required::Date, String::from("DATE?"));
    let mut shared = SharedDateOut { date_out: date(2000, 1, 1), time_out: 5 };
    let mut manager: SceneManger<u8> = SceneManger::new(1);
    manager.restore_last_scene(Some(7));
    // Moving to the submit field hands nothing back.
    let a = enter_date_frame(&mut scene, &mut shared, &mut manager, true, false, false, START, END);
    assert_eq!(a, DateEntryAction::Stay);
    assert_eq!(shared, SharedDateOut { date_out: date(2000, 1, 1), time_out: 5 });
    let a = enter_date_frame(&mut scene, &mut shared, &mut manager, false, false, true, START, END);
    assert_eq!(a, DateEntryAction::Submit { date: date(2025, 1, 1), time: 0 });
    assert_eq!(shared, SharedDateOut { date_out: date(2025, 1, 1), time_out: 0 });
    // The last scene was taken out and is the next one.
    let steps = manager.tick();
    assert!(steps.switched);
    assert_eq!(*manager.scene_enum(), 7);
    assert_eq!(manager.take_last_scene(), Some(1));
}
