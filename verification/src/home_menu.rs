//! The home screen menu and moving its cursor.
use vstd::prelude::*;

use heapless::Vec as HeaplessVec;

use crate::sounds::{whole_note_ms, MelodyEntry, Song};

verus! {

/// An entry of the home screen menu.
#[derive(Clone, Copy, Debug, PartialEq, Eq, Structural, PartialOrd, Ord)]
pub enum MenuOption {
    PetInfo,
    FoodSelect,
    Poop,
    Breed,
    Heal,
    Shop,
    Inventory,
    PlaceFurniture,
    Explore,
    PetRecords,
    GameSelect,
    Settings,
}

impl MenuOption {
    /// The sound an entry makes when it is opened: a song with no notes, at tempo 85.
    pub fn get_song(&self) -> (r: Song)
        ensures
            r.song_melody().len() == 0,
            r.song_tempo() == 85,
            r.song_whole_note() == whole_note_ms(85),
    {
        let melody: &'static [MelodyEntry] = &[];
        Song::new(melody, 85)
    }
}

/// The cursor position after moving it by `change` from `current` over `len` entries:
/// past the end it wraps to the first entry, before the start to the last.
pub open spec fn wrapped_index(len: int, current: int, change: int) -> int {
    let index = current + change;
    if index >= len {
        0
    } else if index < 0 {
        len - 1
    } else {
        index
    }
}

/// On a menu with entries the cursor always lands on an entry, and from any entry one step
/// forward and one step back return to it.
pub proof fn lemma_wrapped_index_laws(len: int, current: int, change: int)
    requires
        len > 0,
    ensures
        0 <= wrapped_index(len, current, change) < len,
        0 <= current < len ==> wrapped_index(len, wrapped_index(len, current, 1), -1) == current,
        0 <= current < len ==> wrapped_index(len, wrapped_index(len, current, -1), 1) == current,
{
}

/// Moves the cursor over `options` by `change` from `current`, wrapping around at both ends.
pub fn change_option(options: &[MenuOption], current: usize, change: i32) -> (r: usize)
    requires
        options.len() <= i32::MAX,
        current <= i32::MAX,
        i32::MIN <= current + change <= i32::MAX,
        current + change < 0 ==> options.len() > 0,
    ensures
        r == wrapped_index(options.len() as int, current as int, change as int),
{
    let index: i32 = current as i32 + change;
    let len: i32 = options.len() as i32;
    if index >= len {
        0usize
    } else if index < 0 {
        options.len() - 1
    } else {
        index as usize
    }
}


/// Number of menu entries, and the capacity of a menu.
pub const MENU_OPTIONS_COUNT: usize = 12;

/// The fixed-capacity vector type of `heapless`.
#[verifier::external_type_specification]
#[verifier::external_body]
#[verifier::reject_recursive_types(T)]
pub struct ExHeaplessVec<T, const N: usize>(HeaplessVec<T, N>);

/// The entries a menu vector holds, in order.
pub uninterp spec fn menu_items(v: HeaplessVec<MenuOption, 12>) -> Seq<MenuOption>;

/// `heapless::Vec::new`: an empty vector.
#[verifier::external_body]
fn menu_vec_new() -> (r: HeaplessVec<MenuOption, 12>)
    ensures
        menu_items(r) == Seq::<MenuOption>::empty(),
{
    HeaplessVec::new()
}

/// `heapless::Vec::push`: appends `item` when fewer than 12 entries are held (and
/// reports success); a full vector is left as it was.
#[verifier::external_body]
fn menu_vec_push(v: &mut HeaplessVec<MenuOption, 12>, item: MenuOption) -> (r: bool)
    ensures
        menu_items(*old(v)).len() < 12 ==> menu_items(*final(v)) == menu_items(*old(v)).push(item) && r,
        menu_items(*old(v)).len() >= 12 ==> menu_items(*final(v)) == menu_items(*old(v)) && !r,
{
    v.push(item).is_ok()
}

/// The number of entries (`len` of the slice the vector holds), at most its capacity 12.
#[verifier::external_body]
fn menu_vec_len(v: &HeaplessVec<MenuOption, 12>) -> (r: usize)
    ensures
        r == menu_items(*v).len(),
        r <= 12,
{
    v.len()
}

/// The entry at `index` (`get` on the slice the vector holds), if there is one.
#[verifier::external_body]
fn menu_vec_get(v: &HeaplessVec<MenuOption, 12>, index: usize) -> (r: Option<MenuOption>)
    ensures
        r == if index < menu_items(*v).len() {
            Some(menu_items(*v)[index as int])
        } else {
            None
        },
{
    v.get(index).copied()
}

/// What the home screen is doing, as far as the menu cares.
#[derive(Clone, Copy, Debug, PartialEq, Eq, Structural)]
pub enum MenuState {
    Sleeping,
    Exploring,
    GoneOut,
    Other,
}

/// The facts about the game that decide which entries the menu shows.
#[derive(Clone, Copy, Debug, PartialEq, Eq, Structural)]
pub struct MenuConditions {
    pub suiter_waiting: bool,
    pub has_any_item: bool,
    pub has_any_furniture: bool,
    pub has_poop: bool,
    pub has_pet_records: bool,
    pub pet_ill: bool,
}

impl MenuConditions {
    /// The menu's conditions from the game: a suiter waiting, any item or furniture owned,
    /// the number of poops, the number of pet records, and the pet being ill.
    pub fn from_game(
        suiter_waiting: bool,
        has_any_item: bool,
        has_any_furniture: bool,
        poop_count: usize,
        record_count: usize,
        pet_ill: bool,
    ) -> (r: Self)
        ensures
            r == (MenuConditions {
                suiter_waiting,
                has_any_item,
                has_any_furniture,
                has_poop: poop_count > 0,
                has_pet_records: record_count > 0,
                pet_ill,
            }),
    {
        MenuConditions {
            suiter_waiting,
            has_any_item,
            has_any_furniture,
            has_poop: poop_count > 0,
            has_pet_records: record_count > 0,
            pet_ill,
        }
    }
}

/// The `i`-th menu entry in the menu's order.
pub open spec fn menu_option_at(i: int) -> MenuOption {
    if i == 0 {
        MenuOption::PetInfo
    } else if i == 1 {
        MenuOption::FoodSelect
    } else if i == 2 {
        MenuOption::Poop
    } else if i == 3 {
        MenuOption::Breed
    } else if i == 4 {
        MenuOption::Heal
    } else if i == 5 {
        MenuOption::Shop
    } else if i == 6 {
        MenuOption::Inventory
    } else if i == 7 {
        MenuOption::PlaceFurniture
    } else if i == 8 {
        MenuOption::Explore
    } else if i == 9 {
        MenuOption::PetRecords
    } else if i == 10 {
        MenuOption::GameSelect
    } else {
        MenuOption::Settings
    }
}

/// Whether the menu shows entry `o`.
pub open spec fn menu_shows(o: MenuOption, state: MenuState, c: MenuConditions) -> bool {
    let away = state == MenuState::Exploring || state == MenuState::GoneOut;
    match o {
        MenuOption::PetInfo | MenuOption::Settings => true,
        MenuOption::Breed => c.suiter_waiting && !away,
        MenuOption::Inventory => c.has_any_item,
        MenuOption::PlaceFurniture => c.has_any_furniture && state != MenuState::Exploring,
        MenuOption::Poop => c.has_poop && state != MenuState::Exploring,
        MenuOption::PetRecords => c.has_pet_records,
        MenuOption::Heal => c.pet_ill && state != MenuState::Exploring,
        MenuOption::GameSelect | MenuOption::FoodSelect => state != MenuState::Sleeping && !away,
        MenuOption::Shop => state != MenuState::Sleeping,
        MenuOption::Explore => !away,
    }
}

/// The entries shown among the first `n` of the menu's order, in that order.
pub open spec fn shown_prefix(state: MenuState, c: MenuConditions, n: nat) -> Seq<MenuOption>
    decreases n,
{
    if n == 0 {
        Seq::empty()
    } else {
        let rest = shown_prefix(state, c, (n - 1) as nat);
        if menu_shows(menu_option_at(n - 1), state, c) {
            rest.push(menu_option_at(n - 1))
        } else {
            rest
        }
    }
}

proof fn lemma_shown_prefix_len(state: MenuState, c: MenuConditions, n: nat)
    ensures
        shown_prefix(state, c, n).len() <= n,
        n >= 1 ==> shown_prefix(state, c, n).len() >= 1,
    decreases n,
{
    if n > 0 {
        lemma_shown_prefix_len(state, c, (n - 1) as nat);
    }
}

fn menu_option_at_exec(i: usize) -> (r: MenuOption)
    requires
        i < MENU_OPTIONS_COUNT,
    ensures
        r == menu_option_at(i as int),
{
    if i == 0 {
        MenuOption::PetInfo
    } else if i == 1 {
        MenuOption::FoodSelect
    } else if i == 2 {
        MenuOption::Poop
    } else if i == 3 {
        MenuOption::Breed
    } else if i == 4 {
        MenuOption::Heal
    } else if i == 5 {
        MenuOption::Shop
    } else if i == 6 {
        MenuOption::Inventory
    } else if i == 7 {
        MenuOption::PlaceFurniture
    } else if i == 8 {
        MenuOption::Explore
    } else if i == 9 {
        MenuOption::PetRecords
    } else if i == 10 {
        MenuOption::GameSelect
    } else {
        MenuOption::Settings
    }
}

fn shows(o: MenuOption, state: MenuState, c: &MenuConditions) -> (r: bool)
    ensures
        r == menu_shows(o, state, *c),
{
    let away = state == MenuState::Exploring || state == MenuState::GoneOut;
    match o {
        MenuOption::PetInfo | MenuOption::Settings => true,
        MenuOption::Breed => c.suiter_waiting && !away,
        MenuOption::Inventory => c.has_any_item,
        MenuOption::PlaceFurniture => c.has_any_furniture && state != MenuState::Exploring,
        MenuOption::Poop => c.has_poop && state != MenuState::Exploring,
        MenuOption::PetRecords => c.has_pet_records,
        MenuOption::Heal => c.pet_ill && state != MenuState::Exploring,
        MenuOption::GameSelect | MenuOption::FoodSelect => state != MenuState::Sleeping && !away,
        MenuOption::Shop => state != MenuState::Sleeping,
        MenuOption::Explore => !away,
    }
}

/// The home screen menu: the entries shown, in the menu's order, and the cursor.
pub struct MenuOptions {
    inner: HeaplessVec<MenuOption, 12>,
    selected_index: usize,
}

impl MenuOptions {
    pub closed spec fn entries(self) -> Seq<MenuOption> {
        menu_items(self.inner)
    }

    pub closed spec fn cursor(self) -> int {
        self.selected_index as int
    }

    /// The cursor is never negative.
    pub proof fn lemma_cursor_nonnegative(self)
        ensures
            0 <= self.cursor(),
    {
    }

    /// The menu for `state` and `conditions`, in the menu's order, with the cursor kept at
    /// `current` when that is still an entry and on the first entry otherwise.
    pub fn new(state: MenuState, current: usize, conditions: &MenuConditions) -> (r: Self)
        ensures
            r.entries() == shown_prefix(state, *conditions, 12),
            r.cursor() == if current < r.entries().len() {
                current as int
            } else {
                0
            },
            0 < r.entries().len() <= MENU_OPTIONS_COUNT,
            r.cursor() < r.entries().len(),
    {
        let mut options = menu_vec_new();
        let mut i: usize = 0;
        while i < MENU_OPTIONS_COUNT
            invariant
                i <= MENU_OPTIONS_COUNT,
                menu_items(options) == shown_prefix(state, *conditions, i as nat),
            decreases MENU_OPTIONS_COUNT - i,
        {
            proof {
                lemma_shown_prefix_len(state, *conditions, i as nat);
            }
            let o = menu_option_at_exec(i);
            if shows(o, state, conditions) {
                menu_vec_push(&mut options, o);
            }
            i = i + 1;
        }
        proof {
            lemma_shown_prefix_len(state, *conditions, MENU_OPTIONS_COUNT as nat);
        }
        let mut selected_index: usize = 0;
        if current < menu_vec_len(&options) {
            selected_index = current;
        }
        MenuOptions { inner: options, selected_index }
    }

    /// Moves the cursor by `change`, wrapping around at both ends.
    pub fn change_option(&mut self, change: i32)
        requires
            old(self).cursor() <= i32::MAX,
            i32::MIN <= old(self).cursor() + change <= i32::MAX,
            old(self).cursor() + change < 0 ==> old(self).entries().len() > 0,
        ensures
            final(self).entries() == old(self).entries(),
            final(self).cursor() == wrapped_index(
                old(self).entries().len() as int,
                old(self).cursor(),
                change as int,
            ),
    {
        let index: i32 = self.selected_index as i32 + change;
        let len = menu_vec_len(&self.inner);
        self.selected_index = if index >= len as i32 {
            0usize
        } else if index < 0 {
            len - 1
        } else {
            index as usize
        };
    }

    /// The entry under the cursor, or the pet information entry if there is none.
    pub fn current(&self) -> (r: MenuOption)
        ensures
            r == if self.cursor() < self.entries().len() {
                self.entries()[self.cursor()]
            } else {
                MenuOption::PetInfo
            },
    {
        match menu_vec_get(&self.inner, self.selected_index) {
            Some(o) => o,
            None => MenuOption::PetInfo,
        }
    }

    pub fn current_index(&self) -> (r: usize)
        ensures
            r == self.cursor(),
    {
        self.selected_index
    }

    /// The entries shown, in the menu's order.
    pub fn inner(&self) -> (r: &HeaplessVec<MenuOption, 12>)
        ensures
            menu_items(*r) == self.entries(),
    {
        &self.inner
    }
}

} // verus!
