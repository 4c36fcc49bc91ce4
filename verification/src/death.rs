//! The death screen: an introduction, a scene for the cause of death, then the tombstone.
use vstd::prelude::*;

use chrono::{NaiveTime, TimeDelta, Timelike};

verus! {

/// Microseconds in a day.
pub const MICROS_PER_DAY: u64 = 86_400_000_000;

/// How long the introduction lasts, in milliseconds.
pub const INTRO_MS: u64 = 3000;

/// How long the snow-shaken pet leans one way, in milliseconds.
pub const SHAKE_SWITCH_MS: u64 = 200;

/// The speed the old-age clock starts at, as a multiple of real time.
pub const OLD_AGE_START_SPEED: i64 = 1200;

/// What the pet died of.
#[derive(Clone, Copy, Debug, PartialEq, Eq, Structural)]
pub enum DeathCause {
    LightingStrike,
    Starvation,
    OldAge,
    ToxicShock,
    Illness,
    Hypothermia,
    Leaving,
}

/// The part of the death screen being shown.
#[derive(Clone, Copy, Debug, PartialEq, Eq, Structural)]
pub enum DeathStage {
    Intro,
    Specific,
    Tombstone,
}

/// How long the scene of each cause runs before the tombstone, in milliseconds; the pet
/// that leaves never gets a tombstone.
pub open spec fn cause_run_ms(cause: DeathCause) -> Option<int> {
    match cause {
        DeathCause::LightingStrike => Some(5500),
        DeathCause::Starvation => Some(5000),
        DeathCause::OldAge => Some(10000),
        DeathCause::ToxicShock => Some(14000),
        DeathCause::Illness => Some(7000),
        DeathCause::Hypothermia => Some(20000),
        DeathCause::Leaving => None,
    }
}

fn cause_run_time(cause: DeathCause) -> (r: Option<u64>)
    ensures
        match cause_run_ms(cause) {
            Some(t) => r == Some(t as u64),
            None => r is None,
        },
{
    match cause {
        DeathCause::LightingStrike => Some(5500),
        DeathCause::Starvation => Some(5000),
        DeathCause::OldAge => Some(10000),
        DeathCause::ToxicShock => Some(14000),
        DeathCause::Illness => Some(7000),
        DeathCause::Hypothermia => Some(20000),
        DeathCause::Leaving => None,
    }
}

/// The time of day `delta` microseconds from `t` microseconds after midnight, wrapping
/// around midnight.
pub open spec fn clock_after(t: int, delta: int) -> int {
    (t + delta) % (MICROS_PER_DAY as int)
}

/// Nanoseconds in a day.
pub open spec fn nanos_per_day() -> int {
    86_400_000_000_000
}

/// Calls `chrono::NaiveTime::overflowing_add_signed` with `TimeDelta::microseconds(delta)` on
/// the time `secs` seconds and `nanos` nanoseconds after midnight, and reads back the seconds
/// and nanoseconds after midnight of the time it gives. The crate's source adds the seconds
/// and the fraction and takes the seconds modulo one day (the wrap-around it documents).
#[verifier::external_body]
fn time_add_micros(secs: u32, nanos: u32, delta: i64) -> (r: (u32, u32))
    requires
        secs < 86400,
        nanos < 1_000_000_000,
    ensures
        ({
            let total = (secs * 1_000_000_000 + nanos + delta * 1000) % nanos_per_day();
            r.0 == total / 1_000_000_000 && r.1 == total % 1_000_000_000
        }),
{
    let time = NaiveTime::from_num_seconds_from_midnight_opt(secs, nanos).unwrap();
    let (next, _) = time.overflowing_add_signed(TimeDelta::microseconds(delta));
    (next.num_seconds_from_midnight(), next.nanosecond())
}

/// The clock `delta` microseconds on from `t` microseconds after midnight.
fn clock_add_micros(t: u64, delta: i64) -> (r: u64)
    requires
        t < MICROS_PER_DAY,
    ensures
        r == clock_after(t as int, delta as int),
{
    let secs: u32 = (t / 1_000_000) as u32;
    let nanos: u32 = ((t % 1_000_000) * 1000) as u32;
    let (s, n) = time_add_micros(secs, nanos, delta);
    proof {
        let total = (secs * 1_000_000_000 + nanos + delta * 1000) % nanos_per_day();
        assert(secs * 1_000_000_000 + nanos == t * 1000) by (nonlinear_arith)
            requires
                secs == t / 1_000_000,
                nanos == (t % 1_000_000) * 1000,
        ;
        assert(t * 1000 + delta * 1000 == (t + delta) * 1000) by (nonlinear_arith);
        lemma_mod_scaled(t + delta, 86_400_000_000, 1000);
        assert(total == ((t + delta) % 86_400_000_000int) * 1000);
        assert(s as int * 1000000 + n as int / 1000 == total / 1000) by (nonlinear_arith)
            requires
                s == total / 1_000_000_000,
                n == total % 1_000_000_000,
                total >= 0,
        ;
        assert(total / 1000 == (t + delta) % 86_400_000_000int) by (nonlinear_arith)
            requires
                total == ((t + delta) % 86_400_000_000int) * 1000,
        ;
    }
    s as u64 * 1_000_000 + (n / 1000) as u64
}

/// Scaling by `k` commutes with taking the remainder by `m`.
proof fn lemma_mod_scaled(x: int, m: int, k: int)
    requires
        m > 0,
        k > 0,
    ensures
        (x * k) % (m * k) == (x % m) * k,
{
    vstd::arithmetic::div_mod::lemma_fundamental_div_mod(x, m);
    let q = x / m;
    let r = x % m;
    assert(x * k == q * (m * k) + r * k) by (nonlinear_arith)
        requires
            x == m * q + r,
    ;
    assert(0 <= r * k < m * k) by (nonlinear_arith)
        requires
            0 <= r < m,
            k > 0,
    ;
    vstd::arithmetic::div_mod::lemma_fundamental_div_mod_converse(x * k, m * k, q, r * k);
}

/// What a frame of the death screen asks of the game.
#[derive(Clone, Copy, Debug, PartialEq, Eq, Structural)]
pub struct DeathTick {
    /// A button was pressed at the tombstone: go on to a new pet.
    pub new_pet: bool,
}

/// The death screen's timing.
pub struct DeathScene {
    stage: DeathStage,
    cause: DeathCause,
    elapsed_ms: u64,
    shaking_ms: u64,
    shaking_left: bool,
    speed_mul: i64,
    clock_us: u64,
}

impl DeathScene {
    #[verifier::type_invariant]
    spec fn wf(self) -> bool {
        &&& self.clock_us < MICROS_PER_DAY
        &&& self.speed_mul >= OLD_AGE_START_SPEED
    }

    pub closed spec fn stage(self) -> DeathStage {
        self.stage
    }

    pub closed spec fn death_cause(self) -> DeathCause {
        self.cause
    }

    /// Milliseconds since the current stage began.
    pub closed spec fn elapsed(self) -> int {
        self.elapsed_ms as int
    }

    /// Milliseconds the snow-shaken pet has leaned the current way.
    pub closed spec fn shaking(self) -> int {
        self.shaking_ms as int
    }

    pub closed spec fn leaning_left(self) -> bool {
        self.shaking_left
    }

    /// How fast the old-age clock runs, as a multiple of real time.
    pub closed spec fn clock_speed(self) -> int {
        self.speed_mul as int
    }

    /// The time the old-age clock shows, in microseconds after midnight.
    pub closed spec fn clock(self) -> int {
        self.clock_us as int
    }

    /// The stage shown.
    pub fn current_stage(&self) -> (r: DeathStage)
        ensures
            r == self.stage(),
    {
        self.stage
    }

    /// The time the old-age clock shows, in microseconds after midnight.
    pub fn clock_time(&self) -> (r: u64)
        ensures
            r == self.clock(),
            r < MICROS_PER_DAY,
    {
        proof {
            use_type_invariant(self);
        }
        self.clock_us
    }

    /// Whether the snow-shaken pet leans left.
    pub fn shaking_left(&self) -> (r: bool)
        ensures
            r == self.leaning_left(),
    {
        self.shaking_left
    }

    /// The introduction of the death of `cause`, with the old-age clock at midnight.
    pub fn new(cause: DeathCause) -> (r: Self)
        ensures
            r.stage() == DeathStage::Intro,
            r.death_cause() == cause,
            r.elapsed() == 0,
            r.shaking() == 0,
            !r.leaning_left(),
            r.clock_speed() == OLD_AGE_START_SPEED,
            r.clock() == 0,
    {
        DeathScene {
            stage: DeathStage::Intro,
            cause,
            elapsed_ms: 0,
            shaking_ms: 0,
            shaking_left: false,
            speed_mul: OLD_AGE_START_SPEED,
            clock_us: 0,
        }
    }

    /// One frame of `delta_ms` milliseconds. The introduction gives way to the scene of the
    /// cause after `INTRO_MS`, and that scene to the tombstone after its run time; the old-age
    /// clock speeds up by three per millisecond and runs at its speed; the snow-shaken pet
    /// leans the other way after `SHAKE_SWITCH_MS`; at the tombstone any button goes on to a
    /// new pet.
    pub fn tick(&mut self, delta_ms: u64, any_pressed: bool) -> (r: DeathTick)
        requires
            old(self).elapsed() + delta_ms <= u64::MAX,
            old(self).shaking() + delta_ms <= u64::MAX,
            old(self).stage() == DeathStage::Specific && old(self).death_cause()
                == DeathCause::OldAge ==> (delta_ms * 1000) * (old(self).clock_speed() + 3
                * delta_ms) <= i64::MAX,
        ensures
            final(self).death_cause() == old(self).death_cause(),
            r.new_pet == (old(self).stage() == DeathStage::Tombstone && any_pressed),
            ({
                let e = old(self).elapsed() + delta_ms;
                match old(self).stage() {
                    DeathStage::Intro => if e > INTRO_MS {
                        final(self).stage() == DeathStage::Specific && final(self).elapsed() == 0
                    } else {
                        final(self).stage() == DeathStage::Intro && final(self).elapsed() == e
                    },
                    DeathStage::Specific => match cause_run_ms(old(self).death_cause()) {
                        Some(t) => if e > t {
                            final(self).stage() == DeathStage::Tombstone && final(self).elapsed()
                                == 0
                        } else {
                            final(self).stage() == DeathStage::Specific && final(self).elapsed()
                                == e
                        },
                        None => final(self).stage() == DeathStage::Specific
                            && final(self).elapsed() == e,
                    },
                    DeathStage::Tombstone => final(self).stage() == DeathStage::Tombstone
                        && final(self).elapsed() == e,
                }
            }),
            ({
                let hypothermia = old(self).stage() == DeathStage::Specific
                    && old(self).death_cause() == DeathCause::Hypothermia;
                let s = old(self).shaking() + delta_ms;
                &&& hypothermia && s > SHAKE_SWITCH_MS ==> final(self).shaking() == 0
                    && final(self).leaning_left() == !old(self).leaning_left()
                &&& hypothermia && s <= SHAKE_SWITCH_MS ==> final(self).shaking() == s
                    && final(self).leaning_left() == old(self).leaning_left()
                &&& !hypothermia ==> final(self).shaking() == old(self).shaking()
                    && final(self).leaning_left() == old(self).leaning_left()
            }),
            ({
                let old_age = old(self).stage() == DeathStage::Specific && old(self).death_cause()
                    == DeathCause::OldAge;
                let speed = old(self).clock_speed() + 3 * delta_ms;
                &&& old_age ==> final(self).clock_speed() == speed && final(self).clock()
                    == clock_after(old(self).clock(), delta_ms * 1000 * speed)
                &&& !old_age ==> final(self).clock_speed() == old(self).clock_speed()
                    && final(self).clock() == old(self).clock()
            }),
    {
        proof {
            use_type_invariant(&*self);
        }
        self.elapsed_ms = self.elapsed_ms + delta_ms;
        match self.stage {
            DeathStage::Intro => {
                if self.elapsed_ms > INTRO_MS {
                    self.stage = DeathStage::Specific;
                    self.elapsed_ms = 0;
                }
                DeathTick { new_pet: false }
            },
            DeathStage::Specific => {
                match self.cause {
                    DeathCause::OldAge => {
                        proof {
                            let sp = self.speed_mul as int;
                            let d = delta_ms as int;
                            assert(d == 0 || (sp + 3 * d <= d * 1000 * (sp + 3 * d) && d * 1000
                                <= d * 1000 * (sp + 3 * d))) by (nonlinear_arith)
                                requires
                                    sp >= 1200,
                                    d >= 0,
                            ;
                        }
                        self.speed_mul = self.speed_mul + 3 * (delta_ms as i64);
                        let step: i64 = (delta_ms as i64) * 1000 * self.speed_mul;
                        self.clock_us = clock_add_micros(self.clock_us, step);
                    },
                    DeathCause::Hypothermia => {
                        self.shaking_ms = self.shaking_ms + delta_ms;
                        if self.shaking_ms > SHAKE_SWITCH_MS {
                            self.shaking_ms = 0;
                            self.shaking_left = !self.shaking_left;
                        }
                    },
                    _ => {},
                }
                match cause_run_time(self.cause) {
                    Some(t) => {
                        if self.elapsed_ms > t {
                            self.stage = DeathStage::Tombstone;
                            self.elapsed_ms = 0;
                        }
                    },
                    None => {},
                }
                DeathTick { new_pet: false }
            },
            DeathStage::Tombstone => DeathTick { new_pet: any_pressed },
        }
    }
}

/// Every cause but leaving ends at the tombstone: its scene has a run time, and a frame that
/// takes the time spent past it moves on.
pub proof fn lemma_death_reaches_tombstone(cause: DeathCause)
    ensures
        cause != DeathCause::Leaving <==> cause_run_ms(cause) is Some,
        cause_run_ms(cause) matches Some(t) ==> 0 < t <= 20000,
{
}

} // verus!
