use sdop_game::date_entry::{FieldOption, Required};
use sdop_game::game_select::{GameSelectAction, GameSelectScene, MiniGame};
use sdop_game::home_menu::{change_option, MenuOption};
use sdop_game::place_furniture::{HomeFurnitureLocation, PlaceSelection};
use sdop_game::settings::{Option as SettingsOption, SettingsAction, SettingsScene, SettingsState, SoundSelection};
use sdop_game::sounds::SoundOptions;
use sdop_game::assets::StaticImage;

#[test]
fn menu_cursor_wraps() {
    let options = [MenuOption::PetInfo, MenuOption::FoodSelect, MenuOption::Settings];
    assert_eq!(change_option(&options, 0, 1), 1);
    assert_eq!(change_option(&options, 2, 1), 0);
    assert_eq!(change_option(&options, 0, -1), 2);
    assert_eq!(change_option(&options, 1, -1), 0);
    assert_eq!(change_option(&options, 1, 5), 0);
}

#[test]
fn place_selection_moves_and_wraps() {
    assert_eq!(PlaceSelection::Left.change(1), PlaceSelection::Top);
    assert_eq!(PlaceSelection::Left.change(-1), PlaceSelection::Exit);
    assert_eq!(PlaceSelection::Exit.change(1), PlaceSelection::Left);
    assert_eq!(PlaceSelection::Right.change(-2), PlaceSelection::Left);
    assert_eq!(PlaceSelection::Top.change(10), PlaceSelection::Left);
    assert_eq!(PlaceSelection::Left.to_location(), Some(HomeFurnitureLocation::Left));
    assert_eq!(PlaceSelection::Top.to_location(), Some(HomeFurnitureLocation::Top));
    assert_eq!(PlaceSelection::Right.to_location(), Some(HomeFurnitureLocation::Right));
    assert_eq!(PlaceSelection::Exit.to_location(), None);
}

#[test]
fn date_fields_follow_what_is_shown() {
    let _ = Required::DateTime;
    assert_eq!(FieldOption::Day.next(true, true), FieldOption::Hour);
    assert_eq!(FieldOption::Day.next(true, false), FieldOption::Submit);
    assert_eq!(FieldOption::Submit.next(false, true), FieldOption::Hour);
    assert_eq!(FieldOption::Submit.next(true, true), FieldOption::Year);
    assert_eq!(FieldOption::Hour.prev(false, true), FieldOption::Submit);
    assert_eq!(FieldOption::Hour.prev(true, false), FieldOption::Day);
    assert_eq!(FieldOption::Submit.prev(false, true), FieldOption::Miniute);
    assert_eq!(FieldOption::Year.prev(true, true), FieldOption::Submit);
}

#[test]
fn settings_texts_and_switches() {
    assert_eq!(SettingsOption::Sound.text(), "SOUND");
    assert_eq!(SettingsOption::Time.text(), "TIME");
    assert_eq!(SettingsOption::Back.text(), "BACK");
    assert_eq!(SoundSelection::Essential.text(), "ESSENTIAL");
    let options = SoundOptions { play_music: false, play_effect: true, play_essential: true };
    assert!(!SoundSelection::Music.enabled(&options));
    assert!(SoundSelection::Effect.enabled(&options));
    assert!(!SoundSelection::Back.enabled(&options));
    assert_eq!(SettingsOption::Back.next(), SettingsOption::Sound);
    assert_eq!(SettingsOption::Sound.prev(), SettingsOption::Back);
    assert_eq!(SoundSelection::Music.prev(), SoundSelection::Back);
}

#[test]
fn settings_flow() {
    let mut scene = SettingsScene::new();
    let mut options = SoundOptions::default();
    assert_eq!(scene.tick(false, false, true, &mut options), SettingsAction::Stay);
    assert_eq!(scene.state, SettingsState::Sounds);
    scene.tick(false, true, true, &mut options);
    assert!(!options.play_effect);
    scene.tick(false, false, true, &mut options);
    assert!(options.play_effect);
    scene.tick(true, false, false, &mut options);
    scene.tick(true, false, true, &mut options);
    assert_eq!(scene.state, SettingsState::Selecting);
    assert_eq!(scene.tick(false, true, true, &mut options), SettingsAction::Stay);
    assert_eq!(scene.state, SettingsState::GettingTime);
    assert_eq!(scene.tick(false, false, false, &mut options), SettingsAction::AskTime);
    assert_eq!(scene.tick(false, false, false, &mut options), SettingsAction::SetTime);
    assert_eq!(scene.state, SettingsState::Selecting);
    assert_eq!(scene.tick(false, true, true, &mut options), SettingsAction::GoHome);
}

#[test]
fn game_select_cursor_and_start() {
    let mut scene = GameSelectScene::new();
    assert_eq!(scene.selected(), 0);
    assert_eq!(scene.tick(true, false, false), GameSelectAction::Stay);
    assert_eq!(scene.selected(), 0);
    assert_eq!(scene.tick(false, true, true), GameSelectAction::Start(MiniGame::DogeEm));
    for _ in 0..3 {
        scene.tick(false, true, false);
    }
    assert_eq!(scene.selected(), 4);
    assert_eq!(scene.tick(false, false, true), GameSelectAction::GoHome);
    scene.tick(false, true, false);
    assert_eq!(scene.selected(), 0);
    assert_eq!(MiniGame::LinkFour.image(), StaticImage::MgLinkFourIcon);
    assert_eq!(MiniGame::TicTacToe.image(), StaticImage::MgTicTacToeIcon);
}

use sdop_game::home_menu::{MenuConditions, MenuOptions, MenuState};

fn conditions(all: bool) -> MenuConditions {
    MenuConditions {
        suiter_waiting: all,
        has_any_item: all,
        has_any_furniture: all,
        has_poop: all,
        has_pet_records: all,
        pet_ill: all,
    }
}

#[test]
fn menu_entries_follow_state_and_conditions() {
    let menu = MenuOptions::new(MenuState::Other, 0, &conditions(false));
    assert_eq!(
        menu.inner().as_slice(),
        &[MenuOption::PetInfo, MenuOption::FoodSelect, MenuOption::Shop, MenuOption::Explore, MenuOption::GameSelect, MenuOption::Settings]
    );
    let menu = MenuOptions::new(MenuState::Other, 3, &conditions(true));
    assert_eq!(menu.inner().len(), 12);
    assert_eq!(menu.current_index(), 3);
    assert_eq!(menu.current(), MenuOption::Breed);
    let menu = MenuOptions::new(MenuState::Sleeping, 7, &conditions(false));
    assert_eq!(menu.inner().as_slice(), &[MenuOption::PetInfo, MenuOption::Explore, MenuOption::Settings]);
    assert_eq!(menu.current_index(), 0);
    let menu = MenuOptions::new(MenuState::Exploring, 0, &conditions(true));
    assert_eq!(
        menu.inner().as_slice(),
        &[MenuOption::PetInfo, MenuOption::Shop, MenuOption::Inventory, MenuOption::PetRecords, MenuOption::Settings]
    );
}

#[test]
fn menu_cursor_moves_and_wraps() {
    let mut menu = MenuOptions::new(MenuState::Sleeping, 0, &conditions(false));
    assert_eq!(menu.current(), MenuOption::PetInfo);
    menu.change_option(-1);
    assert_eq!(menu.current(), MenuOption::Settings);
    menu.change_option(1);
    assert_eq!(menu.current(), MenuOption::PetInfo);
    menu.change_option(1);
    assert_eq!(menu.current(), MenuOption::Explore);
}
