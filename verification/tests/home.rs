use sdop_game::activity::{ActivityConditions, ActivityPlan};
use sdop_game::death::DeathCause;
use sdop_game::home::{
    choose_book, home_takeover, menu_input, menu_state_of, AlertSounds, DreamBubble, HomeAlerts, HomeFrame,
    HomeInput, HomeSceneData, HomeState, HomeStep, HomeTakeover, HomeTick,
};
use sdop_game::temperature::TemperatureLevel;
use sdop_game::weather::{Weather, WeatherChange};
use sdop_game::home_menu::{MenuConditions, MenuOption, MenuOptions, MenuState};

fn frame(delta: u64, now: u64) -> HomeFrame {
    HomeFrame {
        delta,
        now,
        exploring: false,
        mood_happy: true,
        alarm_ringing: false,
        alarm_furniture: false,
        playing: false,
        show_slot: 0,
        chapter_done: false,
        shiver: false,
        conditions: ActivityConditions {
            playing_computer: false,
            watch_tv: false,
            read_book: false,
            listen_music: false,
            go_out: true,
            telescope: false,
        },
        has_lcd: false,
        has_crt: false,
        reading_book: None,
        unread_book: None,
    }
}

#[test]
fn alerts_sound_on_changes_and_hourly() {
    let mut alerts = HomeAlerts::new();
    let quiet = AlertSounds { pooped: false, sick: false, hungry: false };
    assert_eq!(alerts.tick(1, 1000, false, false), AlertSounds { pooped: true, ..quiet });
    assert_eq!(alerts.tick(1, 2000, true, false), AlertSounds { sick: true, ..quiet });
    assert_eq!(alerts.tick(1, 3000, true, true), AlertSounds { hungry: true, ..quiet });
    // An hour after the last poop alert it sounds again.
    assert_eq!(alerts.tick(1, 1000 + 3_600_000, true, true), quiet);
    assert_eq!(alerts.tick(1, 1001 + 3_600_000, true, true), AlertSounds { pooped: true, ..quiet });
    // Poop cleared: no sound, and none later.
    assert_eq!(alerts.tick(0, 1002 + 3_600_000, false, false), quiet);
    assert_eq!(alerts.tick(0, 9 * 3_600_000, false, false), quiet);
}

#[test]
fn takeover_order() {
    assert_eq!(home_takeover(true, true, Some(DeathCause::Illness), Some(4)), None);
    assert_eq!(home_takeover(false, true, Some(DeathCause::Illness), None), Some(HomeTakeover::EggHatch));
    assert_eq!(
        home_takeover(false, false, Some(DeathCause::Illness), Some(4)),
        Some(HomeTakeover::Death(DeathCause::Illness))
    );
    assert_eq!(home_takeover(false, false, None, Some(4)), Some(HomeTakeover::Evolve(4)));
    assert_eq!(home_takeover(false, false, None, None), None);
}

#[test]
fn dream_bubble_shows_and_hides() {
    let mut rng = fastrand::Rng::with_seed(1);
    let mut bubble = DreamBubble::new();
    bubble.tick(16, &mut rng);
    assert!(bubble.show);
    assert!((60_000..600_000).contains(&bubble.timer) && bubble.timer % 1000 == 0);
    let t = bubble.timer;
    bubble.tick(t, &mut rng);
    assert!(!bubble.show);
    assert!((180_000..1_800_000).contains(&bubble.timer) && bubble.timer % 60_000 == 0);
}

#[test]
fn pet_sleeps_wakes_and_goes_out() {
    let mut rng = fastrand::Rng::with_seed(4);
    let mut home = HomeSceneData::new();
    home.begin_frame(16, false, true);
    assert_eq!(home.state(), HomeState::Sleeping);
    home.begin_frame(16, false, false);
    assert_eq!(home.state(), HomeState::Wondering);
    // Wandering time is up after the first frame (it starts at zero); going out and
    // wandering on are the activities allowed and off their cooldowns.
    let now = 10_000_000;
    let mut went_out = false;
    for _ in 0..20 {
        home.begin_frame(16, false, false);
        let fx = home.run_state(&frame(16, now), &mut rng);
        match fx.plan {
            Some(ActivityPlan::GoneOut { outing_end_time }) => {
                assert_eq!(home.state(), HomeState::GoneOut { outing_end_time });
                // Back once the outing time has passed.
                home.begin_frame(outing_end_time, false, false);
                home.run_state(&frame(outing_end_time, now), &mut rng);
                assert_eq!(home.state(), HomeState::GoneOut { outing_end_time });
                home.begin_frame(1, false, false);
                home.run_state(&frame(1, now), &mut rng);
                assert_eq!(home.state(), HomeState::Wondering);
                went_out = true;
                break;
            }
            Some(ActivityPlan::Wondering) | None => {
                assert_eq!(home.state(), HomeState::Wondering);
                // Let the next wandering time run out.
                home.begin_frame(300_000, false, false);
            }
            other => panic!("unexpected plan {:?}", other),
        }
    }
    assert!(went_out);
}

#[test]
fn alarm_takes_over_and_stops() {
    let mut rng = fastrand::Rng::with_seed(4);
    let mut home = HomeSceneData::new();
    let mut f = frame(16, 0);
    f.alarm_ringing = true;
    f.alarm_furniture = true;
    home.end_frame(&f);
    assert_eq!(home.state(), HomeState::Alarm);
    let fx = home.run_state(&f, &mut rng);
    assert!(fx.push_alarm && !fx.clear_song);
    f.alarm_ringing = false;
    let fx = home.run_state(&f, &mut rng);
    assert!(fx.clear_song);
    assert_eq!(home.state(), HomeState::Wondering);
}

#[test]
fn menu_buttons() {
    let conditions = MenuConditions {
        suiter_waiting: false,
        has_any_item: true,
        has_any_furniture: false,
        has_poop: false,
        has_pet_records: false,
        pet_ill: false,
    };
    let mut options = MenuOptions::new(MenuState::Other, 0, &conditions);
    let first = options.current();
    assert_eq!(first, MenuOption::PetInfo);
    assert_eq!(menu_input(HomeState::Alarm, &mut options, true, true, false, false), HomeInput::AckAlarm);
    assert_eq!(options.current(), first);
    // Left from the first entry wraps to the last, which is the settings.
    assert_eq!(
        menu_input(HomeState::Wondering, &mut options, true, true, false, true),
        HomeInput::Open(MenuOption::Settings)
    );
    assert_eq!(menu_input(HomeState::Wondering, &mut options, true, false, true, false), HomeInput::Nothing);
    assert_eq!(options.current(), MenuOption::PetInfo);
}

#[test]
fn first_setup_draws_the_wandering_time() {
    let mut rng = fastrand::Rng::with_seed(8);
    let mut home = HomeSceneData::new();
    let first = home.setup(&mut rng);
    assert!(first);
    // A second setup only repeats while the time drawn was zero.
    let mut again = home.setup(&mut rng);
    for _ in 0..10 {
        if !again {
            break;
        }
        again = home.setup(&mut rng);
    }
    assert!(!again);
}

fn menu_conditions() -> MenuConditions {
    MenuConditions {
        suiter_waiting: false,
        has_any_item: false,
        has_any_furniture: false,
        has_poop: false,
        has_pet_records: false,
        pet_ill: false,
    }
}

fn tick(delta: u64, now: u64) -> HomeTick {
    HomeTick {
        frame: frame(delta, now),
        frames: 1,
        sleeping: false,
        poop_count: 0,
        is_ill: false,
        is_starving: false,
        egg_should_hatch: false,
        death: None,
        evolve_to: None,
        temperature: TemperatureLevel::VeryCold,
        menu: menu_conditions(),
        any_pressed: false,
        left: false,
        right: false,
        middle: false,
    }
}

#[test]
fn hatching_takes_over_before_the_weather() {
    let mut rng = fastrand::Rng::with_seed(3);
    let mut home = HomeSceneData::new();
    let mut alerts = HomeAlerts::new();
    let mut weather = Weather::new();
    let mut options = MenuOptions::new(MenuState::Other, 0, &menu_conditions());
    let t = HomeTick {
        egg_should_hatch: true,
        death: Some(DeathCause::Illness),
        evolve_to: Some(2),
        poop_count: 1,
        ..tick(16, 5000)
    };
    let step = home.frame(&mut alerts, &mut weather, &mut options, &t, &mut rng);
    assert_eq!(
        step,
        HomeStep::TakeOver {
            alerts: AlertSounds { pooped: true, sick: false, hungry: false },
            takeover: HomeTakeover::EggHatch,
        }
    );
    // The frame stopped before the weather followed the cold.
    assert!(weather.is_weather_none());
    assert_eq!(home.state(), HomeState::Wondering);
    assert_eq!(alerts.last_poop_count, 1);
}

#[test]
fn sleeping_pet_keeps_the_egg_waiting() {
    let mut rng = fastrand::Rng::with_seed(3);
    let mut home = HomeSceneData::new();
    let mut alerts = HomeAlerts::new();
    let mut weather = Weather::new();
    let mut options = MenuOptions::new(MenuState::Other, 0, &menu_conditions());
    let t = HomeTick { egg_should_hatch: true, sleeping: true, ..tick(16, 5000) };
    match home.frame(&mut alerts, &mut weather, &mut options, &t, &mut rng) {
        HomeStep::Continue { weather: change, input, .. } => {
            assert_eq!(change, WeatherChange { remove_snow: false, add_snow: true });
            assert_eq!(input, HomeInput::Nothing);
        },
        other => panic!("unexpected {:?}", other),
    }
    assert_eq!(home.state(), HomeState::Sleeping);
    assert!(weather.should_shake());
    assert_eq!(menu_state_of(home.state()), MenuState::Sleeping);
}

#[test]
fn awake_frame_runs_to_the_menu() {
    let mut rng = fastrand::Rng::with_seed(3);
    let mut home = HomeSceneData::new();
    let mut alerts = HomeAlerts::new();
    let mut weather = Weather::new();
    let mut options = MenuOptions::new(MenuState::Other, 0, &menu_conditions());
    let t = HomeTick { left: true, middle: true, temperature: TemperatureLevel::Pleasant, ..tick(16, 5000) };
    match home.frame(&mut alerts, &mut weather, &mut options, &t, &mut rng) {
        HomeStep::Continue { alerts: sounds, weather: change, effects, input } => {
            assert_eq!(sounds, AlertSounds { pooped: false, sick: false, hungry: false });
            assert_eq!(change, WeatherChange { remove_snow: false, add_snow: false });
            assert!(!effects.exploring_post);
            // Left from the first entry wraps to the last, the settings, which opens.
            assert_eq!(input, HomeInput::Open(MenuOption::Settings));
        },
        other => panic!("unexpected {:?}", other),
    }
    assert_eq!(options.current(), MenuOption::Settings);
    let song = MenuOption::Settings.get_song();
    assert_eq!(song.melody().len(), 0);
}

#[test]
fn menu_is_rebuilt_at_the_start_and_every_tenth_frame() {
    let mut rng = fastrand::Rng::with_seed(5);
    let mut home = HomeSceneData::new();
    let mut alerts = HomeAlerts::new();
    let mut weather = Weather::new();
    let mut options = MenuOptions::new(MenuState::Other, 0, &menu_conditions());
    let with_items = MenuConditions { has_any_item: true, ..menu_conditions() };
    let has_inventory =
        |o: &MenuOptions| o.inner().iter().any(|e| *e == MenuOption::Inventory);
    // Second frame of a state (time in it above zero), not a tenth frame: kept as it was.
    let first = HomeTick { temperature: TemperatureLevel::Pleasant, frames: 1, ..tick(16, 5000) };
    home.frame(&mut alerts, &mut weather, &mut options, &first, &mut rng);
    assert!(!has_inventory(&options));
    let t = HomeTick { menu: with_items, frames: 21, temperature: TemperatureLevel::Pleasant, ..tick(16, 5016) };
    home.frame(&mut alerts, &mut weather, &mut options, &t, &mut rng);
    if home.state() == HomeState::Wondering {
        assert!(!has_inventory(&options));
    }
    // A tenth frame: built anew from the conditions.
    let t = HomeTick { menu: with_items, frames: 30, temperature: TemperatureLevel::Pleasant, ..tick(16, 5032) };
    home.frame(&mut alerts, &mut weather, &mut options, &t, &mut rng);
    assert!(has_inventory(&options));
}

#[test]
fn book_taken_up_is_the_one_being_read_first() {
    assert_eq!(choose_book(Some(7), Some(9)), 7);
    assert_eq!(choose_book(None, Some(9)), 9);
    assert_eq!(choose_book(None, None), 0);
}

#[test]
fn menu_conditions_from_counts() {
    assert_eq!(
        MenuConditions::from_game(true, false, true, 3, 0, false),
        MenuConditions {
            suiter_waiting: true,
            has_any_item: false,
            has_any_furniture: true,
            has_poop: true,
            has_pet_records: false,
            pet_ill: false,
        }
    );
}
