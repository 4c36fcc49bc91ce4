//! The settings screen: its entries, the sound switches, and how input moves between them.
use vstd::prelude::*;

use crate::sounds::SoundOptions;

verus! {

/// An entry of the settings screen.
#[derive(Clone, Copy, Debug, PartialEq, Eq, Structural)]
pub enum Option {
    Sound,
    Time,
    Back,
}

impl Option {
    pub fn text(&self) -> (r: &'static str)
        ensures
            r@ == (match *self {
                Option::Sound => "SOUND"@,
                Option::Time => "TIME"@,
                Option::Back => "BACK"@,
            }),
    {
        match self {
            Option::Sound => "SOUND",
            Option::Time => "TIME",
            Option::Back => "BACK",
        }
    }

    /// The entry to the right, wrapping from the last to the first.
    pub fn next(&self) -> (r: Self)
        ensures
            r == self.next_spec(),
    {
        match self {
            Option::Sound => Option::Time,
            Option::Time => Option::Back,
            Option::Back => Option::Sound,
        }
    }

    /// The entry to the left, wrapping from the first to the last.
    pub fn prev(&self) -> (r: Self)
        ensures
            r == self.prev_spec(),
    {
        match self {
            Option::Sound => Option::Back,
            Option::Time => Option::Sound,
            Option::Back => Option::Time,
        }
    }
}

/// An entry of the sound settings.
#[derive(Clone, Copy, Debug, PartialEq, Eq, Structural)]
pub enum SoundSelection {
    Music,
    Effect,
    Essential,
    Back,
}

impl SoundSelection {
    pub fn text(&self) -> (r: &'static str)
        ensures
            r@ == (match *self {
                SoundSelection::Music => "MUSIC"@,
                SoundSelection::Effect => "EFFECT"@,
                SoundSelection::Essential => "ESSENTIAL"@,
                SoundSelection::Back => "BACK"@,
            }),
    {
        match self {
            SoundSelection::Music => "MUSIC",
            SoundSelection::Effect => "EFFECT",
            SoundSelection::Essential => "ESSENTIAL",
            SoundSelection::Back => "BACK",
        }
    }

    /// Whether the switch of this entry is on (the way back has none).
    pub fn enabled(&self, options: &SoundOptions) -> (r: bool)
        ensures
            r == (match *self {
                SoundSelection::Music => options.play_music,
                SoundSelection::Effect => options.play_effect,
                SoundSelection::Essential => options.play_essential,
                SoundSelection::Back => false,
            }),
    {
        match self {
            SoundSelection::Music => options.play_music,
            SoundSelection::Effect => options.play_effect,
            SoundSelection::Essential => options.play_essential,
            SoundSelection::Back => false,
        }
    }

    /// The entry to the right, wrapping from the last to the first.
    pub fn next(&self) -> (r: Self)
        ensures
            r == self.next_spec(),
    {
        match self {
            SoundSelection::Music => SoundSelection::Effect,
            SoundSelection::Effect => SoundSelection::Essential,
            SoundSelection::Essential => SoundSelection::Back,
            SoundSelection::Back => SoundSelection::Music,
        }
    }

    /// The entry to the left, wrapping from the first to the last.
    pub fn prev(&self) -> (r: Self)
        ensures
            r == self.prev_spec(),
    {
        match self {
            SoundSelection::Music => SoundSelection::Back,
            SoundSelection::Effect => SoundSelection::Music,
            SoundSelection::Essential => SoundSelection::Effect,
            SoundSelection::Back => SoundSelection::Essential,
        }
    }
}

/// What the settings screen is doing.
#[derive(Clone, Copy, Debug, PartialEq, Eq, Structural)]
pub enum SettingsState {
    Selecting,
    Sounds,
    GettingTime,
    GotTime,
}

/// What a tick of the settings screen asks of the game.
#[derive(Clone, Copy, Debug, PartialEq, Eq, Structural)]
pub enum SettingsAction {
    /// Nothing.
    Stay,
    /// Go back to the home screen.
    GoHome,
    /// Open the date and time entry screen for the current date and time.
    AskTime,
    /// Set the clock to the date and time that the entry screen gave back.
    SetTime,
}

/// The settings screen.
pub struct SettingsScene {
    pub option: Option,
    pub sound_selected: SoundSelection,
    pub state: SettingsState,
}

impl SettingsScene {
    pub fn new() -> (r: Self)
        ensures
            r.option == Option::Sound,
            r.sound_selected == SoundSelection::Music,
            r.state == SettingsState::Selecting,
    {
        SettingsScene {
            option: Option::Sound,
            sound_selected: SoundSelection::Music,
            state: SettingsState::Selecting,
        }
    }

    /// One tick with the buttons pressed: left and right move the cursor (left first),
    /// middle picks the entry; in the sound settings it flips the selected switch.
    pub fn tick(&mut self, left: bool, right: bool, middle: bool, options: &mut SoundOptions) -> (r:
        SettingsAction)
        ensures
            ({
                let o = old(self);
                match o.state {
                    SettingsState::Selecting => {
                        let moved_left = if left {
                            o.option.prev_spec()
                        } else {
                            o.option
                        };
                        let moved = if right {
                            moved_left.next_spec()
                        } else {
                            moved_left
                        };
                        &&& final(self).option == moved
                        &&& final(self).sound_selected == o.sound_selected
                        &&& *final(options) == *old(options)
                        &&& if middle && moved == Option::Back {
                            r == SettingsAction::GoHome && final(self).state == o.state
                        } else if middle && moved == Option::Sound {
                            r == SettingsAction::Stay && final(self).state == SettingsState::Sounds
                        } else if middle && moved == Option::Time {
                            r == SettingsAction::Stay && final(self).state
                                == SettingsState::GettingTime
                        } else {
                            r == SettingsAction::Stay && final(self).state == o.state
                        }
                    },
                    SettingsState::Sounds => {
                        let moved_left = if left {
                            o.sound_selected.prev_spec()
                        } else {
                            o.sound_selected
                        };
                        let moved = if right {
                            moved_left.next_spec()
                        } else {
                            moved_left
                        };
                        &&& r == SettingsAction::Stay
                        &&& final(self).option == o.option
                        &&& final(self).sound_selected == moved
                        &&& final(self).state == if middle && moved == SoundSelection::Back {
                            SettingsState::Selecting
                        } else {
                            SettingsState::Sounds
                        }
                        &&& *final(options) == if middle {
                            toggled(*old(options), moved)
                        } else {
                            *old(options)
                        }
                    },
                    SettingsState::GettingTime => {
                        &&& r == SettingsAction::AskTime
                        &&& final(self).state == SettingsState::GotTime
                        &&& final(self).option == o.option
                        &&& final(self).sound_selected == o.sound_selected
                        &&& *final(options) == *old(options)
                    },
                    SettingsState::GotTime => {
                        &&& r == SettingsAction::SetTime
                        &&& final(self).state == SettingsState::Selecting
                        &&& final(self).option == o.option
                        &&& final(self).sound_selected == o.sound_selected
                        &&& *final(options) == *old(options)
                    },
                }
            }),
    {
        match self.state {
            SettingsState::Selecting => {
                if left {
                    self.option = self.option.prev();
                }
                if right {
                    self.option = self.option.next();
                }
                if middle {
                    match self.option {
                        Option::Sound => {
                            self.state = SettingsState::Sounds;
                        },
                        Option::Time => {
                            self.state = SettingsState::GettingTime;
                        },
                        Option::Back => {
                            return SettingsAction::GoHome;
                        },
                    }
                }
            },
            SettingsState::Sounds => {
                if left {
                    self.sound_selected = self.sound_selected.prev();
                }
                if right {
                    self.sound_selected = self.sound_selected.next();
                }
                if middle {
                    match self.sound_selected {
                        SoundSelection::Music => {
                            options.play_music = !options.play_music;
                        },
                        SoundSelection::Effect => {
                            options.play_effect = !options.play_effect;
                        },
                        SoundSelection::Essential => {
                            options.play_essential = !options.play_essential;
                        },
                        SoundSelection::Back => {
                            self.state = SettingsState::Selecting;
                        },
                    }
                }
            },
            SettingsState::GettingTime => {
                self.state = SettingsState::GotTime;
                return SettingsAction::AskTime;
            },
            SettingsState::GotTime => {
                self.state = SettingsState::Selecting;
                return SettingsAction::SetTime;
            },
        }
        SettingsAction::Stay
    }
}

/// The sound options with the switch of `s` flipped (the way back flips nothing).
pub open spec fn toggled(o: SoundOptions, s: SoundSelection) -> SoundOptions {
    match s {
        SoundSelection::Music => SoundOptions { play_music: !o.play_music, ..o },
        SoundSelection::Effect => SoundOptions { play_effect: !o.play_effect, ..o },
        SoundSelection::Essential => SoundOptions { play_essential: !o.play_essential, ..o },
        SoundSelection::Back => o,
    }
}

impl Option {
    pub open spec fn next_spec(self) -> Option {
        match self {
            Option::Sound => Option::Time,
            Option::Time => Option::Back,
            Option::Back => Option::Sound,
        }
    }

    pub open spec fn prev_spec(self) -> Option {
        match self {
            Option::Sound => Option::Back,
            Option::Time => Option::Sound,
            Option::Back => Option::Time,
        }
    }
}

impl SoundSelection {
    pub open spec fn next_spec(self) -> SoundSelection {
        match self {
            SoundSelection::Music => SoundSelection::Effect,
            SoundSelection::Effect => SoundSelection::Essential,
            SoundSelection::Essential => SoundSelection::Back,
            SoundSelection::Back => SoundSelection::Music,
        }
    }

    pub open spec fn prev_spec(self) -> SoundSelection {
        match self {
            SoundSelection::Music => SoundSelection::Back,
            SoundSelection::Effect => SoundSelection::Music,
            SoundSelection::Essential => SoundSelection::Effect,
            SoundSelection::Back => SoundSelection::Essential,
        }
    }
}

/// Moving right then left, or left then right, comes back to the same entry.
pub proof fn lemma_next_prev_inverse(o: Option, s: SoundSelection)
    ensures
        o.next_spec().prev_spec() == o,
        o.prev_spec().next_spec() == o,
        s.next_spec().prev_spec() == s,
        s.prev_spec().next_spec() == s,
{
}

/// Flipping the same switch twice restores the options.
pub proof fn lemma_toggle_twice(o: SoundOptions, s: SoundSelection)
    ensures
        toggled(toggled(o, s), s) == o,
{
}

} // verus!
