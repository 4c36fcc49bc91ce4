use chrono::{Weekday, WeekdaySet};
use sdop_game::calendar::DateValue;
use sdop_game::tv::{get_show_for_time, show_seed_for, TvKind, SHOW_COUNT};
use sdop_game::weekday_select::{WeekdayAction, WeekdaySelectScene};

#[test]
fn show_seed_is_big_endian_bytes() {
    assert_eq!(show_seed_for(1, 2, 3, 44), 0x01020302);
    assert_eq!(show_seed_for(31, 12, 23, 59), u32::from_be_bytes([31, 12, 23, 3]) as u64);
    assert_eq!(show_seed_for(5, 6, 7, 14), show_seed_for(5, 6, 7, 0));
}

#[test]
fn show_is_fixed_within_a_quarter_hour() {
    let day = DateValue { year: 2025, month: 3, day: 4 };
    let a = 10 * 3600 + 16 * 60;
    let b = 10 * 3600 + 29 * 60 + 59;
    let show = get_show_for_time(&day, a);
    assert!(show < SHOW_COUNT);
    assert_eq!(show, get_show_for_time(&day, b));
    let expected = fastrand::Rng::with_seed(show_seed_for(4, 3, 10, 16)).usize(0..4);
    assert_eq!(show, expected);
    let next_quarter = fastrand::Rng::with_seed(show_seed_for(4, 3, 10, 30)).usize(0..4);
    assert_eq!(get_show_for_time(&day, 10 * 3600 + 30 * 60), next_quarter);
    let _ = TvKind::LCD;
}

#[test]
fn weekday_picking() {
    let mut scene = WeekdaySelectScene::new(2, String::from("WHICH DAYS"));
    assert_eq!(scene.days(), WeekdaySet::EMPTY);
    // Pick Monday.
    assert_eq!(scene.tick(false, false, true), WeekdayAction::Stay);
    assert!(scene.days().contains(Weekday::Mon));
    // Move to Wednesday and pick it, then unpick it and pick it again.
    scene.tick(false, true, false);
    scene.tick(false, true, true);
    assert!(scene.days().contains(Weekday::Wed));
    scene.tick(false, false, true);
    assert!(!scene.days().contains(Weekday::Wed));
    // Left from Monday goes to the submit button; one day is not enough.
    scene.tick(true, false, false);
    scene.tick(true, false, false);
    assert_eq!(scene.tick(true, false, true), WeekdayAction::Error);
    // Left from the submit button wraps to Sunday; pick it and submit.
    scene.tick(true, false, true);
    assert!(scene.days().contains(Weekday::Sun));
    assert_eq!(scene.tick(false, true, true), WeekdayAction::Done);
}

#[test]
fn weekday_scene_keeps_given_days() {
    let days = WeekdaySet::from_array([Weekday::Tue, Weekday::Fri]);
    let mut scene = WeekdaySelectScene::new(2, String::new()).with_days(days);
    assert_eq!(scene.days(), days);
    scene.tick(true, false, false);
    assert_eq!(scene.tick(false, false, true), WeekdayAction::Done);
}
