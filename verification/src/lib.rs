//! Game logic of a small virtual-pet game: the tic-tac-toe engine and its
//! move search, menu and selection state, sound options and scene switching.
use vstd::prelude::*;

pub mod activity;
pub mod alarm_set;
pub mod assets;
pub mod bit_array;
pub mod calendar;
pub mod date_entry;
pub mod death;
pub mod enter_text;
pub mod fanfare;
pub mod game_select;
pub mod heal;
pub mod home;
pub mod home_menu;
pub mod inventory;
pub mod mini_games;
pub mod opponents;
pub mod pet;
pub mod pet_info;
pub mod place_furniture;
pub mod rng;
pub mod scene;
pub mod scenes;
pub mod settings;
pub mod shop;
pub mod shop_scene;
pub mod sim;
pub mod suiter;
pub mod sounds;
pub mod temperature;
pub mod tic_tac_toe;
pub mod tic_tac_toe_scene;
pub mod tv;
pub mod weather;
pub mod weekday_select;

verus! {
} // verus!
