//! The screen after a mini game: the result, then the money earned, flashing.
use vstd::prelude::*;

use crate::pet::PetDefinitionId;

verus! {

/// How long the result is shown before the total, in milliseconds.
pub const FANFARE_INTRO_MS: u64 = 3000;

/// How long the total is shown, in milliseconds.
pub const FANFARE_TOTAL_MS: u64 = 2000;

/// How long the earned money is shown or hidden while it flashes, in milliseconds.
pub const FANFARE_FLASH_MS: u64 = 300;

/// The part of the screen shown.
#[derive(Clone, Copy, Debug, PartialEq, Eq, Structural)]
pub enum FanfareState {
    Intro,
    ShowingTotal,
}

/// The song the screen starts with.
#[derive(Clone, Copy, Debug, PartialEq, Eq, Structural)]
pub enum FanfareSong {
    FanFare,
    Lost,
}

/// The screen after a mini game.
pub struct MgFanFareScene {
    won: bool,
    money: i32,
    pet_def_id: PetDefinitionId,
    start_time: u64,
    state: FanfareState,
    show_earned: bool,
    flash_ms: u64,
}

/// Whether the earned money shows, and the time it has shown or hidden, after `delta`
/// more milliseconds: it switches when that time passes `FANFARE_FLASH_MS`.
pub open spec fn flash_step(show: bool, flash: int, delta: int) -> (bool, int) {
    let f = flash + delta;
    if f > FANFARE_FLASH_MS {
        (!show, 0)
    } else {
        (show, f)
    }
}

impl MgFanFareScene {
    pub closed spec fn has_won(self) -> bool {
        self.won
    }

    pub closed spec fn earned(self) -> i32 {
        self.money
    }

    pub closed spec fn pet(self) -> PetDefinitionId {
        self.pet_def_id
    }

    /// When the current part began, in milliseconds of the game clock.
    pub closed spec fn started(self) -> u64 {
        self.start_time
    }

    pub closed spec fn fanfare_state(self) -> FanfareState {
        self.state
    }

    pub closed spec fn showing_earned(self) -> bool {
        self.show_earned
    }

    pub closed spec fn flash_time(self) -> int {
        self.flash_ms as int
    }

    /// The screen for a game won or lost, earning `money`, showing pet `pet_def_id`.
    pub fn new(won: bool, money: i32, pet_def_id: PetDefinitionId) -> (r: Self)
        ensures
            r.has_won() == won,
            r.earned() == money,
            r.pet() == pet_def_id,
            r.started() == 0,
            r.fanfare_state() == FanfareState::Intro,
            r.showing_earned(),
            r.flash_time() == 0,
    {
        MgFanFareScene {
            won,
            money,
            pet_def_id,
            start_time: 0,
            state: FanfareState::Intro,
            show_earned: true,
            flash_ms: 0,
        }
    }

    /// Starts the screen at `now`: the fanfare plays after a win, the losing song after a loss.
    pub fn setup(&mut self, now: u64) -> (r: FanfareSong)
        ensures
            r == if old(self).has_won() {
                FanfareSong::FanFare
            } else {
                FanfareSong::Lost
            },
            final(self).started() == now,
            final(self).has_won() == old(self).has_won(),
            final(self).earned() == old(self).earned(),
            final(self).pet() == old(self).pet(),
            final(self).fanfare_state() == old(self).fanfare_state(),
            final(self).showing_earned() == old(self).showing_earned(),
            final(self).flash_time() == old(self).flash_time(),
    {
        self.start_time = now;
        if self.won {
            FanfareSong::FanFare
        } else {
            FanfareSong::Lost
        }
    }

    /// Whether the earned money shows in this frame.
    pub fn earned_visible(&self) -> (r: bool)
        ensures
            r == self.showing_earned(),
    {
        self.show_earned
    }

    /// The money to add when the screen closes.
    pub fn teardown(&self) -> (r: i32)
        ensures
            r == self.earned(),
    {
        self.money
    }

    /// One frame at `now`, `delta` milliseconds after the last: the result shows for more than
    /// `FANFARE_INTRO_MS`, then the total for more than `FANFARE_TOTAL_MS`, after which the
    /// screen goes home (true); meanwhile the earned money flashes.
    pub fn tick(&mut self, now: u64, delta: u64) -> (r: bool)
        requires
            now >= old(self).started(),
            old(self).flash_time() + delta <= u64::MAX,
        ensures
            final(self).has_won() == old(self).has_won(),
            final(self).earned() == old(self).earned(),
            final(self).pet() == old(self).pet(),
            old(self).fanfare_state() == FanfareState::Intro ==> {
                &&& !r
                &&& if now - old(self).started() > FANFARE_INTRO_MS {
                    final(self).fanfare_state() == FanfareState::ShowingTotal
                        && final(self).started() == now
                } else {
                    final(self).fanfare_state() == FanfareState::Intro && final(self).started()
                        == old(self).started()
                }
            },
            old(self).fanfare_state() == FanfareState::ShowingTotal ==> {
                &&& r == (now - old(self).started() > FANFARE_TOTAL_MS)
                &&& final(self).fanfare_state() == FanfareState::ShowingTotal
                &&& final(self).started() == old(self).started()
            },
            !r ==> (final(self).showing_earned(), final(self).flash_time()) == flash_step(
                old(self).showing_earned(),
                old(self).flash_time(),
                delta as int,
            ),
            r ==> final(self).showing_earned() == old(self).showing_earned()
                && final(self).flash_time() == old(self).flash_time(),
    {
        match self.state {
            FanfareState::Intro => {
                if now - self.start_time > FANFARE_INTRO_MS {
                    self.start_time = now;
                    self.state = FanfareState::ShowingTotal;
                }
            },
            FanfareState::ShowingTotal => {
                if now - self.start_time > FANFARE_TOTAL_MS {
                    return true;
                }
            },
        }
        self.flash_ms = self.flash_ms + delta;
        if self.flash_ms > FANFARE_FLASH_MS {
            self.show_earned = !self.show_earned;
            self.flash_ms = 0;
        }
        false
    }
}

} // verus!
