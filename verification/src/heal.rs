//! The doctor's visit: the pet walks in, the doctor asks for payment, the pet sleeps in the
//! hospital for a while, and walks out.
use vstd::prelude::*;

use crate::rng::rng_u64;

verus! {

/// The shortest stay in the hospital, in milliseconds.
pub const HEAL_TIME_MIN_MS: u64 = 30000;

/// The longest stay in the hospital (exclusive), in milliseconds.
pub const HEAL_TIME_MAX_MS: u64 = 120000;

/// The part of the visit shown.
#[derive(Clone, Copy, Debug, PartialEq, Eq, Structural)]
pub enum HealState {
    Entering,
    DoctorQuestion,
    HealingScene,
    LeavingRoom,
}

/// What a frame of the visit decides.
#[derive(Clone, Copy, Debug, PartialEq, Eq, Structural)]
pub enum HealStep {
    Stay,
    /// Back to the home screen.
    Home,
}

/// The doctor's visit.
pub struct HealScene {
    state: HealState,
    elapsed_ms: u64,
    will_pay: bool,
    heal_time_ms: u64,
}

impl HealScene {
    pub closed spec fn visit_state(self) -> HealState {
        self.state
    }

    pub closed spec fn elapsed(self) -> int {
        self.elapsed_ms as int
    }

    /// Whether the answer under the cursor is to pay.
    pub closed spec fn paying(self) -> bool {
        self.will_pay
    }

    /// How long the pet stays in the hospital, in milliseconds.
    pub closed spec fn heal_time(self) -> int {
        self.heal_time_ms as int
    }

    /// The pet about to walk in, with the answer on paying.
    pub fn new() -> (r: Self)
        ensures
            r.visit_state() == HealState::Entering,
            r.elapsed() == 0,
            r.paying(),
            r.heal_time() == 0,
    {
        HealScene { state: HealState::Entering, elapsed_ms: 0, will_pay: true, heal_time_ms: 0 }
    }

    /// Draws how long the pet will stay in the hospital.
    pub fn setup(&mut self, rng: &mut fastrand::Rng)
        ensures
            HEAL_TIME_MIN_MS <= final(self).heal_time() < HEAL_TIME_MAX_MS,
            final(self).visit_state() == old(self).visit_state(),
            final(self).elapsed() == old(self).elapsed(),
            final(self).paying() == old(self).paying(),
    {
        self.heal_time_ms = rng_u64(rng, HEAL_TIME_MIN_MS, HEAL_TIME_MAX_MS);
    }

    /// One frame of `delta` milliseconds. `in_room` tells whether the pet has walked all the
    /// way in during this frame and `out_of_room` whether it has walked all the way out; the
    /// pet can pay the doctor when `heal_cost` is at most `money`. At the question, left or
    /// right switch the answer, and the middle button sends the pet home when it cannot pay and
    /// into the hospital otherwise; the stay ends after more than the heal time.
    pub fn tick(
        &mut self,
        delta: u64,
        in_room: bool,
        out_of_room: bool,
        left: bool,
        right: bool,
        middle: bool,
        heal_cost: i32,
        money: i32,
    ) -> (r: HealStep)
        requires
            old(self).elapsed() + delta <= u64::MAX,
        ensures
            final(self).heal_time() == old(self).heal_time(),
            ({
                let e = old(self).elapsed() + delta;
                match old(self).visit_state() {
                    HealState::Entering => {
                        &&& r == HealStep::Stay
                        &&& final(self).paying() == old(self).paying()
                        &&& if in_room {
                            final(self).visit_state() == HealState::DoctorQuestion
                                && final(self).elapsed() == 0
                        } else {
                            final(self).visit_state() == HealState::Entering
                                && final(self).elapsed() == e
                        }
                    },
                    HealState::DoctorQuestion => {
                        &&& final(self).paying() == if left || right {
                            !old(self).paying()
                        } else {
                            old(self).paying()
                        }
                        &&& r == if middle && heal_cost > money {
                            HealStep::Home
                        } else {
                            HealStep::Stay
                        }
                        &&& if middle && heal_cost <= money {
                            final(self).visit_state() == HealState::HealingScene
                                && final(self).elapsed() == 0
                        } else {
                            final(self).visit_state() == HealState::DoctorQuestion
                                && final(self).elapsed() == e
                        }
                    },
                    HealState::HealingScene => {
                        &&& r == HealStep::Stay
                        &&& final(self).paying() == old(self).paying()
                        &&& if e > old(self).heal_time() {
                            final(self).visit_state() == HealState::LeavingRoom
                                && final(self).elapsed() == 0
                        } else {
                            final(self).visit_state() == HealState::HealingScene
                                && final(self).elapsed() == e
                        }
                    },
                    HealState::LeavingRoom => {
                        &&& r == if out_of_room {
                            HealStep::Home
                        } else {
                            HealStep::Stay
                        }
                        &&& final(self).paying() == old(self).paying()
                        &&& final(self).visit_state() == HealState::LeavingRoom
                        &&& final(self).elapsed() == e
                    },
                }
            }),
    {
        self.elapsed_ms = self.elapsed_ms + delta;
        match self.state {
            HealState::Entering => {
                if in_room {
                    self.elapsed_ms = 0;
                    self.state = HealState::DoctorQuestion;
                }
                HealStep::Stay
            },
            HealState::DoctorQuestion => {
                if left || right {
                    self.will_pay = !self.will_pay;
                }
                if middle {
                    if heal_cost > money {
                        return HealStep::Home;
                    } else {
                        self.elapsed_ms = 0;
                        self.state = HealState::HealingScene;
                    }
                }
                HealStep::Stay
            },
            HealState::HealingScene => {
                if self.elapsed_ms > self.heal_time_ms {
                    self.state = HealState::LeavingRoom;
                    self.elapsed_ms = 0;
                }
                HealStep::Stay
            },
            HealState::LeavingRoom => {
                if out_of_room {
                    HealStep::Home
                } else {
                    HealStep::Stay
                }
            },
        }
    }
}

} // verus!
