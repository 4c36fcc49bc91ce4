use sdop_game::activity::{
    activity_conditions, wonder_options, Activity, ActivityConditions, ActivityFacts,
};
use sdop_game::opponents::LinkFourOpponent;
use sdop_game::scenes::{CreditsScene, ExploringPostScene, FoodSelectScene, TemplateScene};
use sdop_game::shop::Shop;
use sdop_game::suiter::{Suiter, SuiterRolls, SuiterSystem};
use sdop_game::temperature::TemperatureLevel;
use sdop_game::weather::{Weather, WeatherChange, WeatherKind};

#[test]
fn activity_cooldowns() {
    assert_eq!(Activity::Wonder.cooldown(), 0);
    assert_eq!(Activity::ReadBook.cooldown(), 7_200_000);
    assert_eq!(Activity::Telescope.cooldown(), 2_700_000);
    assert_eq!(Activity::Telescope.index(), 6);
}

#[test]
fn wonder_options_respect_conditions_and_cooldowns() {
    let all = ActivityConditions {
        playing_computer: true,
        watch_tv: true,
        read_book: false,
        listen_music: true,
        go_out: true,
        telescope: false,
    };
    let history = [0u64; 7];
    let now = 1_000_000;
    assert_eq!(
        wonder_options(&all, &history, now).as_slice(),
        &[Activity::PlayingComputer, Activity::WatchTv, Activity::ListenMusic, Activity::Wonder]
    );
    let mut history = [0u64; 7];
    history[Activity::WatchTv.index()] = 500_000;
    history[Activity::Wonder.index()] = now;
    assert_eq!(
        wonder_options(&all, &history, now).as_slice(),
        &[Activity::PlayingComputer, Activity::ListenMusic]
    );
}

#[test]
fn shop_item_count() {
    let mut shop = Shop::default();
    assert_eq!(shop.get_item_count(), 2);
    shop.set_item_count(7);
    assert_eq!(shop.get_item_count(), 7);
    assert_eq!(shop, {
        let mut s = Shop::new();
        s.set_item_count(7);
        s
    });
}

struct Scripted {
    leave: bool,
    arrive: bool,
}

impl SuiterRolls for Scripted {
    fn leave_roll(&mut self) -> bool {
        self.leave
    }
    fn arrival_roll(&mut self, _waited: u64) -> bool {
        self.arrive
    }
    fn new_suiter(&mut self) -> Suiter {
        Suiter { pet_def_id: 3, upid: 99, name: String::from("BOB"), waiting: 12 }
    }
}

#[test]
fn suiter_comes_waits_and_leaves() {
    let mut system = SuiterSystem::default();
    assert!(!system.suiter_waiting());
    let mut rolls = Scripted { leave: false, arrive: false };
    system.sim_tick(1000, &mut rolls, true, false);
    assert!(!system.suiter_waiting());
    assert_eq!(system.waiting_for_suiter, 1000);
    rolls.arrive = true;
    system.sim_tick(500, &mut rolls, true, false);
    assert!(system.suiter_waiting());
    assert_eq!(system.waiting_for_suiter, 1500);
    assert_eq!(system.suiter.as_ref().unwrap().waiting, 0);
    system.sim_tick(200, &mut rolls, true, false);
    assert_eq!(system.suiter.as_ref().unwrap().waiting, 200);
    assert_eq!(system.waiting_for_suiter, 1500);
    system.sim_tick(200, &mut rolls, true, true);
    assert!(!system.suiter_waiting());
    system.sim_tick(200, &mut rolls, true, false);
    assert!(system.suiter_waiting());
    system.sim_tick(200, &mut rolls, false, false);
    assert!(!system.suiter_waiting());
    system.suiter = Some(rolls.new_suiter());
    system.clear_suiter();
    assert!(!system.suiter_waiting());
}

#[test]
fn temperature_bands() {
    assert!(TemperatureLevel::VeryHot.is_hot());
    assert!(TemperatureLevel::Hot.is_hot());
    assert!(!TemperatureLevel::Pleasant.is_hot());
    assert!(!TemperatureLevel::Pleasant.is_cold());
    assert!(TemperatureLevel::Cold.is_cold());
    assert!(TemperatureLevel::VeryCold.is_cold());
}

#[test]
fn weather_follows_temperature() {
    let mut weather = Weather::default();
    assert!(weather.is_weather_none());
    assert!(!weather.should_shake());
    assert_eq!(
        weather.tick(TemperatureLevel::VeryCold),
        WeatherChange { remove_snow: false, add_snow: true }
    );
    assert!(weather.should_shake());
    assert_eq!(
        weather.tick(TemperatureLevel::VeryCold),
        WeatherChange { remove_snow: false, add_snow: false }
    );
    assert_eq!(
        weather.tick(TemperatureLevel::Cold),
        WeatherChange { remove_snow: true, add_snow: false }
    );
    assert!(weather.should_shake());
    weather.tick(TemperatureLevel::Hot);
    assert!(!weather.should_shake());
    assert!(!weather.is_weather_none());
    assert_eq!(WeatherKind::from_temperature(TemperatureLevel::Pleasant), WeatherKind::NoWeather);
}

#[test]
fn small_scenes() {
    let mut credits = CreditsScene::new();
    assert!(!credits.tick(false));
    assert!(credits.tick(true));
    let _ = TemplateScene::new();
    let mut post = ExploringPostScene::new();
    assert!(!post.tick(1000, false));
    assert!(post.tick(0, true));
    assert!(post.tick(3_600_000, false));
    let food = FoodSelectScene::new();
    assert_eq!(food.current, 0);
    let opponent = LinkFourOpponent::new(4, 80);
    assert_eq!(opponent.strength, 80);
}

use sdop_game::activity::wonder_choice;
use sdop_game::scenes::FoodAction;

#[test]
fn wonder_choice_records_the_pick() {
    let mut rng = fastrand::Rng::with_seed(2);
    let conditions = ActivityConditions {
        playing_computer: false,
        watch_tv: true,
        read_book: false,
        listen_music: false,
        go_out: false,
        telescope: false,
    };
    let mut history = [0u64; 7];
    history[Activity::Wonder.index()] = 5_000_000;
    let picked = wonder_choice(&mut rng, &conditions, &mut history, 5_000_000);
    assert_eq!(picked, Some(Activity::WatchTv));
    assert_eq!(history[Activity::WatchTv.index()], 5_000_000);
    // Both just done: nothing is offered now.
    assert_eq!(wonder_choice(&mut rng, &conditions, &mut history, 5_000_000), None);
}

#[test]
fn food_select_moves_between_owned_foods() {
    let owned = [true, false, true, true, false];
    let sick = [false, false, true, false, false];
    let mut scene = FoodSelectScene::new();
    assert_eq!(scene.tick(false, true, false, 16, &owned, &sick), FoodAction::Stay);
    assert_eq!(scene.current, 2);
    assert_eq!(scene.tick(false, false, true, 16, &owned, &sick), FoodAction::Refused);
    assert_eq!(scene.sick_of_shake_remaining, 200);
    assert_eq!(scene.tick(false, true, false, 150, &owned, &sick), FoodAction::Stay);
    assert_eq!(scene.current, 3);
    assert_eq!(scene.sick_of_shake_remaining, 50);
    assert_eq!(scene.tick(false, false, true, 100, &owned, &sick), FoodAction::Eat(3));
    assert_eq!(scene.sick_of_shake_remaining, 0);
    // No owned food after the last: back to the first.
    scene.tick(false, true, false, 0, &owned, &sick);
    assert_eq!(scene.current, 0);
    assert_eq!(scene.tick(true, false, false, 0, &owned, &sick), FoodAction::GoHome);
    // Left steps down one food from an owned food.
    scene.current = 3;
    scene.tick(true, false, false, 0, &owned, &sick);
    assert_eq!(scene.current, 2);
}

#[test]
fn activity_conditions_follow_the_facts() {
    let facts = ActivityFacts {
        baby: false,
        adult: true,
        is_braino: false,
        happy: true,
        has_computer: true,
        has_screen: true,
        has_keyboard: false,
        has_lcd: false,
        has_crt: true,
        has_mp3: true,
        has_telescope: true,
        has_book_to_read: false,
        egg_hatching_soon: true,
        telescope_hours: true,
    };
    assert_eq!(
        activity_conditions(&facts),
        ActivityConditions {
            playing_computer: false,
            watch_tv: true,
            read_book: false,
            listen_music: true,
            go_out: false,
            telescope: true,
        }
    );
    let braino_baby = ActivityFacts { baby: true, adult: false, is_braino: true, has_keyboard: true, ..facts };
    let c = activity_conditions(&braino_baby);
    assert!(!c.playing_computer && !c.watch_tv && !c.go_out && !c.telescope);
    assert!(c.listen_music);
}
