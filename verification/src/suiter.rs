//! Suiters: pets that come by to breed with an adult pet, and leave again.
use vstd::prelude::*;

use crate::pet::{PetDefinitionId, UniquePetId};

verus! {

/// A pet waiting to breed, and how long it has waited (milliseconds).
#[derive(Clone, Debug, PartialEq, Eq)]
pub struct Suiter {
    pub pet_def_id: PetDefinitionId,
    pub upid: UniquePetId,
    pub name: String,
    pub waiting: u64,
}

/// The chance events of the suiter system.
pub trait SuiterRolls {
    /// Whether a waiting suiter gives up and leaves.
    fn leave_roll(&mut self) -> bool;

    /// Whether a suiter shows up after `waited` milliseconds without one.
    fn arrival_roll(&mut self, waited: u64) -> bool;

    /// A new random suiter, who has not waited yet.
    fn new_suiter(&mut self) -> Suiter;
}

/// The suiter waiting, if any, and how long the pet has waited for one (milliseconds).
#[derive(Clone, Debug)]
pub struct SuiterSystem {
    pub suiter: Option<Suiter>,
    pub waiting_for_suiter: u64,
}

impl SuiterSystem {
    /// No suiter, no wait.
    pub fn new() -> (r: Self)
        ensures
            r.suiter is None,
            r.waiting_for_suiter == 0,
    {
        SuiterSystem { suiter: None, waiting_for_suiter: 0 }
    }

    pub fn suiter_waiting(&self) -> (r: bool)
        ensures
            r == self.suiter is Some,
    {
        self.suiter.is_some()
    }

    pub fn clear_suiter(&mut self)
        ensures
            final(self).suiter is None,
            final(self).waiting_for_suiter == old(self).waiting_for_suiter,
    {
        self.suiter = None;
    }

    /// Lets `delta` milliseconds pass. A waiting suiter waits longer; it leaves when the
    /// pet sleeps or no longer wants to breed, or when the leave roll says so. While the pet
    /// is awake, wants to breed and has no suiter, the wait for one grows, and a new suiter
    /// comes when the arrival roll says so.
    pub fn sim_tick<R: SuiterRolls>(
        &mut self,
        delta: u64,
        rolls: &mut R,
        should_breed: bool,
        sleeping: bool,
    )
        requires
            old(self).suiter matches Some(s) ==> s.waiting + delta <= u64::MAX,
            old(self).waiting_for_suiter + delta <= u64::MAX,
        ensures
            sleeping ==> final(self).suiter is None && final(self).waiting_for_suiter == old(
                self,
            ).waiting_for_suiter,
            !sleeping && !should_breed ==> final(self).suiter is None
                && final(self).waiting_for_suiter == old(self).waiting_for_suiter,
            !sleeping && should_breed ==> match final(self).suiter {
                Some(s) => (old(self).suiter matches Some(o) && s == (Suiter {
                    waiting: (o.waiting + delta) as u64,
                    ..o
                }) && final(self).waiting_for_suiter == old(self).waiting_for_suiter) || (
                final(self).waiting_for_suiter == old(self).waiting_for_suiter + delta
                    && s.waiting == 0),
                None => final(self).waiting_for_suiter == old(self).waiting_for_suiter + delta,
            },
    {
        match &mut self.suiter {
            Some(suiter) => {
                suiter.waiting = suiter.waiting + delta;
            },
            None => {},
        }
        if sleeping || (self.suiter.is_some() && (!should_breed || rolls.leave_roll())) {
            self.suiter = None;
        }
        if sleeping {
            return;
        }
        if should_breed && self.suiter.is_none() {
            self.waiting_for_suiter = self.waiting_for_suiter + delta;
            if rolls.arrival_roll(self.waiting_for_suiter) {
                let mut suiter = rolls.new_suiter();
                suiter.waiting = 0;
                self.suiter = Some(suiter);
            }
        }
    }
}

impl Default for SuiterSystem {
    fn default() -> (r: Self)
        ensures
            r.suiter is None,
            r.waiting_for_suiter == 0,
    {
        SuiterSystem::new()
    }
}

/// How long the suiter waits before the question, in milliseconds.
pub const SUITER_WAIT_MS: u64 = 2000;

/// The part of the suiter screen shown.
#[derive(Clone, Copy, Debug, PartialEq, Eq, Structural)]
pub enum SuitersState {
    /// The suiter comes down.
    Intro,
    /// The suiter has landed and waits.
    Waiting,
    /// The question: embrace the suiter or not.
    Question,
}

/// What a frame of the suiter screen decides.
#[derive(Clone, Copy, Debug, PartialEq, Eq, Structural)]
pub enum SuitersStep {
    Stay,
    /// Go on to breeding with the suiter.
    Breed,
    /// Send the suiter away and go home.
    Home,
}

/// The screen where a suiter comes by and the player answers.
pub struct SuitersScene {
    state: SuitersState,
    elapsed_ms: u64,
    suiter: Suiter,
    embrace: bool,
}

impl SuitersScene {
    pub closed spec fn screen_state(self) -> SuitersState {
        self.state
    }

    pub closed spec fn elapsed(self) -> int {
        self.elapsed_ms as int
    }

    pub closed spec fn suitor(self) -> Suiter {
        self.suiter
    }

    /// Whether the answer under the cursor is to embrace the suiter.
    pub closed spec fn embracing(self) -> bool {
        self.embrace
    }

    /// The screen for `suiter`, with the answer on embracing.
    pub fn new(suiter: Suiter) -> (r: Self)
        ensures
            r.screen_state() == SuitersState::Intro,
            r.elapsed() == 0,
            r.suitor() == suiter,
            r.embracing(),
    {
        SuitersScene { state: SuitersState::Intro, elapsed_ms: 0, suiter, embrace: true }
    }

    /// The suiter on the screen.
    pub fn suiter(&self) -> (r: &Suiter)
        ensures
            *r == self.suitor(),
    {
        &self.suiter
    }

    /// One frame of `delta` milliseconds; `landed` tells whether the suiter has come all the
    /// way down in this frame. After landing the suiter waits for more than `SUITER_WAIT_MS`;
    /// then left or right switch the answer and the middle button gives it.
    pub fn tick(&mut self, delta: u64, landed: bool, left: bool, right: bool, middle: bool) -> (r:
        SuitersStep)
        requires
            old(self).elapsed() + delta <= u64::MAX,
        ensures
            final(self).suitor() == old(self).suitor(),
            ({
                let e = old(self).elapsed() + delta;
                match old(self).screen_state() {
                    SuitersState::Intro => {
                        &&& r == SuitersStep::Stay
                        &&& final(self).embracing() == old(self).embracing()
                        &&& if landed {
                            final(self).screen_state() == SuitersState::Waiting
                                && final(self).elapsed() == 0
                        } else {
                            final(self).screen_state() == SuitersState::Intro
                                && final(self).elapsed() == e
                        }
                    },
                    SuitersState::Waiting => {
                        &&& r == SuitersStep::Stay
                        &&& final(self).embracing() == old(self).embracing()
                        &&& if e > SUITER_WAIT_MS {
                            final(self).screen_state() == SuitersState::Question
                                && final(self).elapsed() == 0
                        } else {
                            final(self).screen_state() == SuitersState::Waiting
                                && final(self).elapsed() == e
                        }
                    },
                    SuitersState::Question => {
                        let embrace = if left || right {
                            !old(self).embracing()
                        } else {
                            old(self).embracing()
                        };
                        &&& final(self).embracing() == embrace
                        &&& final(self).screen_state() == SuitersState::Question
                        &&& final(self).elapsed() == e
                        &&& r == if !middle {
                            SuitersStep::Stay
                        } else if embrace {
                            SuitersStep::Breed
                        } else {
                            SuitersStep::Home
                        }
                    },
                }
            }),
    {
        self.elapsed_ms = self.elapsed_ms + delta;
        match self.state {
            SuitersState::Intro => {
                if landed {
                    self.elapsed_ms = 0;
                    self.state = SuitersState::Waiting;
                }
                SuitersStep::Stay
            },
            SuitersState::Waiting => {
                if self.elapsed_ms > SUITER_WAIT_MS {
                    self.elapsed_ms = 0;
                    self.state = SuitersState::Question;
                }
                SuitersStep::Stay
            },
            SuitersState::Question => {
                if left || right {
                    self.embrace = !self.embrace;
                }
                if middle {
                    if self.embrace {
                        SuitersStep::Breed
                    } else {
                        SuitersStep::Home
                    }
                } else {
                    SuitersStep::Stay
                }
            },
        }
    }
}

} // verus!
