//! Small screens: the credits, the template screen, the screen after exploring, and the
//! food selection screen.
use vstd::prelude::*;

verus! {

/// The credits screen.
pub struct CreditsScene {}

impl CreditsScene {
    pub fn new() -> (r: Self) {
        CreditsScene {  }
    }

    /// Whether the screen closes (back to the home screen): on any button.
    pub fn tick(&mut self, any_pressed: bool) -> (r: bool)
        ensures
            r == any_pressed,
    {
        any_pressed
    }
}

/// An empty screen to start new screens from.
pub struct TemplateScene {}

impl TemplateScene {
    pub fn new() -> (r: Self) {
        TemplateScene {  }
    }
}

/// Longest time the screen after exploring stays open, in milliseconds.
pub const EXPLORING_POST_MAX_MS: u64 = 3_600_000;

/// The screen shown after exploring, and how long it has been open (milliseconds).
pub struct ExploringPostScene {
    pub elapsed: u64,
}

impl ExploringPostScene {
    pub fn new() -> (r: Self)
        ensures
            r.elapsed == 0,
    {
        ExploringPostScene { elapsed: 0 }
    }

    /// Lets `delta` milliseconds pass; the screen closes (back to the home screen) on any
    /// button or once it has been open for more than an hour.
    pub fn tick(&mut self, delta: u64, any_pressed: bool) -> (r: bool)
        requires
            old(self).elapsed + delta <= u64::MAX,
        ensures
            final(self).elapsed == old(self).elapsed + delta,
            r == (any_pressed || final(self).elapsed > EXPLORING_POST_MAX_MS),
    {
        self.elapsed = self.elapsed + delta;
        any_pressed || self.elapsed > EXPLORING_POST_MAX_MS
    }
}

/// The food selection screen: the food shown (its position in the food list) and how long
/// the pet still shakes its head at a refused food (milliseconds).
pub struct FoodSelectScene {
    pub current: usize,
    pub sick_of_shake_remaining: u64,
}

/// How long the pet shakes its head at a food it is sick of, in milliseconds.
pub const SICK_OF_SHAKE_MS: u64 = 200;

/// What a tick of the food selection screen asks of the game.
#[derive(Clone, Copy, Debug, PartialEq, Eq, Structural)]
pub enum FoodAction {
    /// Nothing.
    Stay,
    /// Go back to the home screen.
    GoHome,
    /// Eat the food at this position of the food list.
    Eat(usize),
    /// The pet is sick of the food: play the error sound.
    Refused,
}

/// The first food after position `from` that is owned, or the first food if none is.
pub open spec fn next_owned(owned: Seq<bool>, from: int) -> int
    decreases owned.len() - from,
{
    if from >= owned.len() || from < 0 {
        0
    } else if owned[from] {
        from
    } else {
        next_owned(owned, from + 1)
    }
}

/// Moving left from position `cur`: step down one food at a time; stop after a step that
/// left an owned food, or at the first food.
pub open spec fn step_left(owned: Seq<bool>, cur: int) -> int
    decreases cur,
{
    if cur <= 0 {
        cur
    } else if owned[cur] {
        cur - 1
    } else {
        step_left(owned, cur - 1)
    }
}

impl FoodSelectScene {
    /// The first food, no shaking.
    pub fn new() -> (r: Self)
        ensures
            r.current == 0,
            r.sick_of_shake_remaining == 0,
    {
        FoodSelectScene { current: 0, sick_of_shake_remaining: 0 }
    }

    /// One tick, `delta` after the last, with the buttons pressed. `owned[i]` tells whether
    /// the pet owns the `i`-th food and `sick_of[i]` whether it is sick of it. Right shows the
    /// next owned food (the first food when there is none); left on the first food goes home,
    /// otherwise it steps down; middle eats the food shown unless the pet is sick of it.
    pub fn tick(
        &mut self,
        left: bool,
        right: bool,
        middle: bool,
        delta: u64,
        owned: &[bool],
        sick_of: &[bool],
    ) -> (r: FoodAction)
        requires
            owned.len() > 0,
            sick_of.len() == owned.len(),
            old(self).current < owned.len(),
        ensures
            final(self).current < owned.len(),
            ({
                let shake = if old(self).sick_of_shake_remaining >= delta {
                    (old(self).sick_of_shake_remaining - delta) as u64
                } else {
                    0u64
                };
                let after_right = if right {
                    next_owned(owned@, old(self).current + 1)
                } else {
                    old(self).current as int
                };
                if left && after_right == 0 {
                    r == FoodAction::GoHome && final(self).current == 0
                        && final(self).sick_of_shake_remaining == shake
                } else {
                    let shown = if left {
                        step_left(owned@, after_right)
                    } else {
                        after_right
                    };
                    &&& final(self).current == shown
                    &&& if middle && !sick_of@[shown] {
                        r == FoodAction::Eat(shown as usize)
                            && final(self).sick_of_shake_remaining == shake
                    } else if middle {
                        r == FoodAction::Refused && final(self).sick_of_shake_remaining
                            == SICK_OF_SHAKE_MS
                    } else {
                        r == FoodAction::Stay && final(self).sick_of_shake_remaining == shake
                    }
                }
            }),
    {
        self.sick_of_shake_remaining = if self.sick_of_shake_remaining >= delta {
            self.sick_of_shake_remaining - delta
        } else {
            0
        };
        if right {
            let mut i = self.current + 1;
            while i < owned.len() && !owned[i]
                invariant
                    self.current < i <= owned.len(),
                    next_owned(owned@, self.current + 1) == next_owned(owned@, i as int),
                decreases owned.len() - i,
            {
                i = i + 1;
            }
            self.current = if i < owned.len() {
                i
            } else {
                0
            };
        }
        if left {
            if self.current == 0 {
                return FoodAction::GoHome;
            }
            let ghost start = self.current as int;
            let ghost shake = self.sick_of_shake_remaining;
            while self.current > 0
                invariant_except_break
                    step_left(owned@, start) == step_left(owned@, self.current as int),
                invariant
                    self.current < owned.len(),
                    start < owned.len(),
                    self.sick_of_shake_remaining == shake,
                ensures
                    self.sick_of_shake_remaining == shake,
                    self.current < owned.len(),
                    self.current == step_left(owned@, start),
                decreases self.current,
            {
                let next = self.current - 1;
                if owned[self.current] {
                    self.current = next;
                    break;
                }
                self.current = next;
            }
        }
        if middle {
            if !sick_of[self.current] {
                return FoodAction::Eat(self.current);
            } else {
                self.sick_of_shake_remaining = SICK_OF_SHAKE_MS;
                return FoodAction::Refused;
            }
        }
        FoodAction::Stay
    }
}

} // verus!
