//! Decisions of the home screen: the alert sounds, which screen takes over, the sleeping
//! and waking of the pet, and the dream bubble.
use vstd::prelude::*;

use crate::activity::{
    reset_wonder_end, wonder_end, wonder_outcome, ActivityConditions, ActivityPlan, ACTIVITY_COUNT,
};
use crate::death::DeathCause;
use crate::home_menu::{
    lemma_wrapped_index_laws, shown_prefix, wrapped_index, MenuConditions, MenuOption,
    MenuOptions, MenuState, MENU_OPTIONS_COUNT,
};
use crate::temperature::TemperatureLevel;
use crate::weather::{weather_change, weather_for, Weather, WeatherChange, WeatherKind};
use crate::shop::ItemId;
use crate::pet::PetDefinitionId;
use crate::rng::rng_u64;

verus! {

/// How long the poop alert waits before sounding again for poop still there, in
/// milliseconds (one hour).
pub const POOP_REMINDER_MS: u64 = 3_600_000;

/// The alerts sounded in a frame (each an essential song).
#[derive(Clone, Copy, Debug, PartialEq, Eq, Structural)]
pub struct AlertSounds {
    pub pooped: bool,
    pub sick: bool,
    pub hungry: bool,
}

/// What the home screen remembers to decide when to sound its alerts.
#[derive(Clone, Copy, Debug, PartialEq, Eq, Structural)]
pub struct HomeAlerts {
    pub last_poop_count: usize,
    /// When the poop alert was last considered, in milliseconds of the game clock.
    pub last_poop_sound: u64,
    pub last_is_sick: bool,
    pub last_was_hungry: bool,
}

/// The alert memory and the alerts sounded after a frame at `now` with `poop_count` poops,
/// the pet ill or not and starving or not: the poop alert sounds when the number of poops
/// changed to a number above zero, and again every hour while poop is left; the sickness and
/// hunger alerts sound when the pet falls ill or starts starving.
pub open spec fn alerts_after(
    a: HomeAlerts,
    poop_count: usize,
    now: u64,
    is_ill: bool,
    is_starving: bool,
) -> (HomeAlerts, AlertSounds) {
    let poop_changed = a.last_poop_count != poop_count || (a.last_poop_count > 0 && now
        - a.last_poop_sound > POOP_REMINDER_MS);
    (
        HomeAlerts {
            last_poop_count: poop_count,
            last_poop_sound: if poop_changed {
                now
            } else {
                a.last_poop_sound
            },
            last_is_sick: is_ill,
            last_was_hungry: is_starving,
        },
        AlertSounds {
            pooped: poop_changed && poop_count > 0,
            sick: is_ill && !a.last_is_sick,
            hungry: is_starving && !a.last_was_hungry,
        },
    )
}

impl HomeAlerts {
    /// Nothing seen yet.
    pub fn new() -> (r: Self)
        ensures
            r == (HomeAlerts {
                last_poop_count: 0,
                last_poop_sound: 0,
                last_is_sick: false,
                last_was_hungry: false,
            }),
    {
        HomeAlerts {
            last_poop_count: 0,
            last_poop_sound: 0,
            last_is_sick: false,
            last_was_hungry: false,
        }
    }

    /// One frame at `now` with `poop_count` poops, the pet ill or not and starving or not.
    /// The poop alert sounds when the number of poops changed to a number above zero, and
    /// again every hour while poop is left; the sickness and hunger alerts sound when the pet
    /// falls ill or starts starving.
    pub fn tick(&mut self, poop_count: usize, now: u64, is_ill: bool, is_starving: bool) -> (r:
        AlertSounds)
        requires
            now >= old(self).last_poop_sound,
        ensures
            (*final(self), r) == alerts_after(*old(self), poop_count, now, is_ill, is_starving),
    {
        let mut sounds = AlertSounds { pooped: false, sick: false, hungry: false };
        if self.last_poop_count != poop_count || (self.last_poop_count > 0 && now
            - self.last_poop_sound > POOP_REMINDER_MS) {
            self.last_poop_sound = now;
            self.last_poop_count = poop_count;
            if poop_count > 0 {
                sounds.pooped = true;
            }
        }
        if is_ill != self.last_is_sick {
            if is_ill {
                sounds.sick = true;
            }
            self.last_is_sick = is_ill;
        }
        if is_starving != self.last_was_hungry {
            if is_starving {
                sounds.hungry = true;
            }
            self.last_was_hungry = is_starving;
        }
        sounds
    }
}

/// The screen that takes over from the home screen.
#[derive(Clone, Copy, Debug, PartialEq, Eq, Structural)]
pub enum HomeTakeover {
    EggHatch,
    Death(DeathCause),
    Evolve(PetDefinitionId),
}

/// Which screen takes over from the home screen while the pet is awake: the egg hatching
/// first, then death, then evolving; none while the pet sleeps.
pub open spec fn takeover_for(
    sleeping: bool,
    egg_should_hatch: bool,
    death: Option<DeathCause>,
    evolve_to: Option<PetDefinitionId>,
) -> Option<HomeTakeover> {
    if sleeping {
        None
    } else if egg_should_hatch {
        Some(HomeTakeover::EggHatch)
    } else if death is Some {
        Some(HomeTakeover::Death(death->0))
    } else if evolve_to is Some {
        Some(HomeTakeover::Evolve(evolve_to->0))
    } else {
        None
    }
}

/// Which screen takes over from the home screen while the pet is awake: the egg hatching
/// first, then death, then evolving; none while the pet sleeps.
pub fn home_takeover(
    sleeping: bool,
    egg_should_hatch: bool,
    death: Option<DeathCause>,
    evolve_to: Option<PetDefinitionId>,
) -> (r: Option<HomeTakeover>)
    ensures
        r == takeover_for(sleeping, egg_should_hatch, death, evolve_to),
{
    if sleeping {
        return None;
    }
    if egg_should_hatch {
        return Some(HomeTakeover::EggHatch);
    }
    match death {
        Some(cause) => {
            return Some(HomeTakeover::Death(cause));
        },
        None => {},
    }
    match evolve_to {
        Some(id) => Some(HomeTakeover::Evolve(id)),
        None => None,
    }
}

/// What the pet is doing at home; the times are in milliseconds of the time spent in it.
#[derive(Clone, Copy, Debug, PartialEq, Eq, Structural)]
pub enum HomeState {
    Wondering,
    Sleeping,
    WatchingTv { last_checked: u8, watch_end: u64 },
    PlayingComputer { program_run_time: u64, program_end_time: u64, watch_end: u64 },
    ReadingBook { book: ItemId, read_time: u64 },
    PlayingMp3 { jam_end_time: u64 },
    Alarm,
    GoneOut { outing_end_time: u64 },
    Telescope { end_time: u64 },
    Exploring,
}

/// The state after a frame: exploring while the pet explores; otherwise the pet goes to
/// sleep when it sleeps, and wakes up to wander about when it no longer does.
pub open spec fn state_after_sleep(s: HomeState, exploring: bool, sleeping: bool) -> HomeState {
    if exploring {
        HomeState::Exploring
    } else if sleeping && s != HomeState::Sleeping {
        HomeState::Sleeping
    } else if !sleeping && s == HomeState::Sleeping {
        HomeState::Wondering
    } else {
        s
    }
}

/// The pet is asleep exactly while it sleeps and does not explore, whatever it did before;
/// and a second frame with the same facts changes nothing more.
pub proof fn lemma_sleep_follows_pet(s: HomeState, exploring: bool, sleeping: bool)
    ensures
        (state_after_sleep(s, exploring, sleeping) == HomeState::Sleeping) <==> (sleeping
            && !exploring),
        state_after_sleep(state_after_sleep(s, exploring, sleeping), exploring, sleeping)
            == state_after_sleep(s, exploring, sleeping),
{
}

/// The book the pet takes up: the one it is reading, else the unread book drawn for it,
/// else the default item (0).
pub open spec fn book_choice(reading: Option<ItemId>, unread: Option<ItemId>) -> ItemId {
    match reading {
        Some(b) => b,
        None => match unread {
            Some(b) => b,
            None => 0,
        },
    }
}

/// The book the pet takes up: the one it is reading, else the unread book drawn for it,
/// else the default item (0).
pub fn choose_book(reading: Option<ItemId>, unread: Option<ItemId>) -> (r: ItemId)
    ensures
        r == book_choice(reading, unread),
{
    match reading {
        Some(b) => b,
        None => match unread {
            Some(b) => b,
            None => 0,
        },
    }
}

/// The state the pet starts an activity in, from the plan drawn for it; `book` is the book
/// picked for reading.
pub open spec fn state_for_plan(plan: ActivityPlan, book: ItemId) -> HomeState {
    match plan {
        ActivityPlan::Wondering => HomeState::Wondering,
        ActivityPlan::PlayingComputer {
            watch_end,
            program_end_time,
        } => HomeState::PlayingComputer {
            program_run_time: 0,
            program_end_time,
            watch_end,
        },
        ActivityPlan::WatchingTv { tv, watch_end } => HomeState::WatchingTv {
            last_checked: 255,
            watch_end,
        },
        ActivityPlan::ReadingBook { read_time } => HomeState::ReadingBook { book, read_time },
        ActivityPlan::PlayingMp3 { jam_end_time } => HomeState::PlayingMp3 { jam_end_time },
        ActivityPlan::GoneOut { outing_end_time } => HomeState::GoneOut { outing_end_time },
        ActivityPlan::Telescope { end_time } => HomeState::Telescope { end_time },
    }
}

/// The shortest time the dream bubble stays hidden, in milliseconds (three minutes).
pub const DREAM_HIDDEN_MIN_MS: u64 = 180_000;

/// The longest time the dream bubble stays hidden (exclusive), in milliseconds.
pub const DREAM_HIDDEN_MAX_MS: u64 = 1_800_000;

/// The shortest time the dream bubble shows, in milliseconds (one minute).
pub const DREAM_SHOWN_MIN_MS: u64 = 60_000;

/// The longest time the dream bubble shows (exclusive), in milliseconds.
pub const DREAM_SHOWN_MAX_MS: u64 = 600_000;

/// The dream bubble over the sleeping pet, and the time left until it shows or hides.
pub struct DreamBubble {
    pub show: bool,
    /// Milliseconds until the bubble shows or hides.
    pub timer: u64,
}

impl DreamBubble {
    /// Hidden, with no time left: it shows at the next frame.
    pub fn new() -> (r: Self)
        ensures
            !r.show,
            r.timer == 0,
    {
        DreamBubble { show: false, timer: 0 }
    }

    /// One frame of `delta` milliseconds while the pet sleeps: when the time runs out the
    /// bubble hides for a random three to thirty minutes (whole minutes), or shows for a
    /// random one to ten minutes (whole seconds).
    pub fn tick(&mut self, delta: u64, rng: &mut fastrand::Rng)
        ensures
            ({
                let left = if old(self).timer >= delta {
                    old(self).timer - delta
                } else {
                    0
                };
                if left > 0 {
                    final(self).show == old(self).show && final(self).timer == left
                } else if old(self).show {
                    &&& !final(self).show
                    &&& DREAM_HIDDEN_MIN_MS <= final(self).timer < DREAM_HIDDEN_MAX_MS
                    &&& final(self).timer % 60_000 == 0
                } else {
                    &&& final(self).show
                    &&& DREAM_SHOWN_MIN_MS <= final(self).timer < DREAM_SHOWN_MAX_MS
                    &&& final(self).timer % 1000 == 0
                }
            }),
    {
        self.timer = if self.timer >= delta {
            self.timer - delta
        } else {
            0
        };
        if self.timer == 0 {
            if self.show {
                self.show = false;
                let minutes = rng_u64(rng, 3, 30);
                self.timer = minutes * 60_000;
            } else {
                self.show = true;
                let seconds = rng_u64(rng, 60, 600);
                self.timer = seconds * 1000;
            }
        }
    }
}

/// The state for a plan, computed.
fn state_of_plan(plan: ActivityPlan, book: ItemId) -> (r: HomeState)
    ensures
        r == state_for_plan(plan, book),
{
    match plan {
        ActivityPlan::Wondering => HomeState::Wondering,
        ActivityPlan::PlayingComputer {
            watch_end,
            program_end_time,
        } => HomeState::PlayingComputer {
            program_run_time: 0,
            program_end_time,
            watch_end,
        },
        ActivityPlan::WatchingTv { tv: _, watch_end } => HomeState::WatchingTv {
            last_checked: 255,
            watch_end,
        },
        ActivityPlan::ReadingBook { read_time } => HomeState::ReadingBook { book, read_time },
        ActivityPlan::PlayingMp3 { jam_end_time } => HomeState::PlayingMp3 { jam_end_time },
        ActivityPlan::GoneOut { outing_end_time } => HomeState::GoneOut { outing_end_time },
        ActivityPlan::Telescope { end_time } => HomeState::Telescope { end_time },
    }
}

/// How long the pet leans one way when it shivers, in milliseconds.
pub const SHIVER_SWITCH_MS: u64 = 100;

/// The facts about the game a frame of the home screen needs.
#[derive(Clone, Copy, Debug, PartialEq, Eq, Structural)]
pub struct HomeFrame {
    /// Milliseconds since the last frame.
    pub delta: u64,
    /// The game clock, in milliseconds.
    pub now: u64,
    pub exploring: bool,
    pub mood_happy: bool,
    pub alarm_ringing: bool,
    /// Whether the alarm clock stands in the home.
    pub alarm_furniture: bool,
    /// Whether a song is playing.
    pub playing: bool,
    /// The quarter of the hour (minute / 15) the clock shows.
    pub show_slot: u8,
    /// Whether the pet has read the chapter of its book.
    pub chapter_done: bool,
    /// Whether the weather makes the pet shiver.
    pub shiver: bool,
    /// Which activities the pet may take up, apart from their cooldowns.
    pub conditions: ActivityConditions,
    pub has_lcd: bool,
    pub has_crt: bool,
    /// The book the pet is reading, if any.
    pub reading_book: Option<ItemId>,
    /// An unread book drawn for the pet among those it may read, if any.
    pub unread_book: Option<ItemId>,
}

/// What a frame of the home screen asks of the game besides its own state.
#[derive(Clone, Copy, Debug, PartialEq, Eq, Structural)]
pub struct HomeEffects {
    /// The activity the pet just took up, with its times.
    pub plan: Option<ActivityPlan>,
    /// The television shows the show on now.
    pub change_show: bool,
    /// The computer switches to another program.
    pub change_program: bool,
    /// A word floats up from the book.
    pub spawn_word: bool,
    /// The chapter read is marked done.
    pub complete_chapter: bool,
    /// The alarm song starts.
    pub push_alarm: bool,
    /// The music stops.
    pub clear_song: bool,
    /// The stars above the telescope stop.
    pub remove_stars: bool,
    /// The exploring is over: the post screen takes over.
    pub exploring_post: bool,
}

/// A state change: to `new`, with the time in it starting again, unless it is the same state.
pub open spec fn changed(s: HomeState, elapsed: int, new: HomeState) -> (HomeState, int) {
    if s == new {
        (s, elapsed)
    } else {
        (new, 0)
    }
}

/// What `begin_frame` does to the home state `a`, giving `b`.
pub open spec fn begin_frame_post(a: HomeSceneData, delta: u64, exploring: bool, sleeping: bool, b: HomeSceneData) -> bool {
    &&& (b.home_state(), b.elapsed()) == changed(
            a.home_state(),
            a.elapsed() + delta,
            state_after_sleep(a.home_state(), exploring, sleeping),
        )
    &&& b.wander_time() == a.wander_time()
    &&& b.shiver_time() == a.shiver_time()
    &&& b.leaning_right() == a.leaning_right()
    &&& b.word_timer() == a.word_timer()
    &&& b.dream() == a.dream()
    &&& b.history() == a.history()
    &&& b.wf() == a.wf()
}

/// What `run_state` does to the home state `a` in frame `frame`, giving `b` and effects `fx`.
#[verifier::opaque]
pub open spec fn run_state_post(a: HomeSceneData, frame: HomeFrame, fx: HomeEffects, b: HomeSceneData) -> bool {
    &&& b.wf()
    &&& b.shiver_time() == a.shiver_time()
    &&& b.leaning_right() == a.leaning_right()
    &&& fx.exploring_post == (a.home_state() == HomeState::Exploring && !frame.exploring)
    &&& fx.plan is Some ==> a.home_state() == HomeState::Wondering
    &&& match a.home_state() {
            HomeState::Wondering => if a.elapsed() > a.wander_time() {
                &&& wonder_outcome(
                    frame.conditions,
                    a.history(),
                    frame.now,
                    fx.plan,
                    frame.has_lcd,
                    frame.has_crt,
                    b.history(),
                )
                &&& b.wander_time() < 300_000
                &&& (b.home_state(), b.elapsed()) == match fx.plan {
                    Some(p) => changed(
                        HomeState::Wondering,
                        a.elapsed(),
                        state_for_plan(p, book_choice(frame.reading_book, frame.unread_book)),
                    ),
                    None => (HomeState::Wondering, a.elapsed()),
                }
            } else {
                &&& fx.plan is None
                &&& b.home_state() == HomeState::Wondering
                &&& b.elapsed() == a.elapsed()
                &&& b.wander_time() == a.wander_time()
                &&& b.history() == a.history()
            },
            HomeState::Sleeping => {
                &&& b.home_state() == HomeState::Sleeping
                &&& b.elapsed() == a.elapsed()
                &&& b.history() == a.history()
                &&& ({
                    let left = if a.dream().1 >= frame.delta {
                        a.dream().1 - frame.delta
                    } else {
                        0
                    };
                    if left > 0 {
                        b.dream() == (a.dream().0, left as u64)
                    } else if a.dream().0 {
                        !b.dream().0 && DREAM_HIDDEN_MIN_MS <= b.dream().1
                            < DREAM_HIDDEN_MAX_MS
                    } else {
                        b.dream().0 && DREAM_SHOWN_MIN_MS <= b.dream().1
                            < DREAM_SHOWN_MAX_MS
                    }
                })
            },
            HomeState::WatchingTv { last_checked, watch_end } => {
                &&& b.history() == a.history()
                &&& if a.elapsed() > watch_end {
                    &&& !fx.change_show
                    &&& b.home_state() == HomeState::Wondering
                    &&& b.elapsed() == 0
                } else {
                    &&& fx.change_show == (frame.show_slot != last_checked)
                    &&& b.home_state() == (HomeState::WatchingTv {
                        last_checked: frame.show_slot,
                        watch_end,
                    })
                    &&& b.elapsed() == a.elapsed()
                }
            },
            HomeState::PlayingComputer { program_run_time, program_end_time, watch_end } => {
                let run = program_run_time + frame.delta;
                &&& b.history() == a.history()
                &&& fx.change_program == (run > program_end_time)
                &&& if a.elapsed() > watch_end {
                    b.home_state() == HomeState::Wondering && b.elapsed()
                        == 0
                } else {
                    &&& b.elapsed() == a.elapsed()
                    &&& b.home_state() matches HomeState::PlayingComputer {
                        program_run_time: run2,
                        program_end_time: end2,
                        watch_end: w2,
                    }
                    &&& w2 == watch_end
                    &&& if run > program_end_time {
                        run2 == 0 && 30_000 <= end2 < 180_000
                    } else {
                        run2 == run && end2 == program_end_time
                    }
                }
            },
            HomeState::ReadingBook { .. } => {
                let left = if a.word_timer() >= frame.delta {
                    a.word_timer() - frame.delta
                } else {
                    0
                };
                &&& b.history() == a.history()
                &&& fx.spawn_word == (left == 0)
                &&& left == 0 ==> 2500 <= b.word_timer() < 10000
                &&& left > 0 ==> b.word_timer() == left
                &&& fx.complete_chapter == frame.chapter_done
                &&& if frame.chapter_done {
                    b.home_state() == HomeState::Wondering && b.elapsed()
                        == 0
                } else {
                    b.home_state() == a.home_state()
                        && b.elapsed() == a.elapsed()
                }
            },
            HomeState::PlayingMp3 { jam_end_time } => {
                &&& b.history() == a.history()
                &&& if a.elapsed() > jam_end_time || !frame.mood_happy {
                    b.home_state() == HomeState::Wondering && b.elapsed()
                        == 0
                } else {
                    b.home_state() == a.home_state()
                        && b.elapsed() == a.elapsed()
                }
            },
            HomeState::Alarm => {
                &&& b.history() == a.history()
                &&& fx.push_alarm == !frame.playing
                &&& fx.clear_song == !frame.alarm_ringing
                &&& if frame.alarm_ringing {
                    b.home_state() == HomeState::Alarm && b.elapsed()
                        == a.elapsed()
                } else {
                    b.home_state() == HomeState::Wondering && b.elapsed()
                        == 0
                }
            },
            HomeState::GoneOut { outing_end_time } => {
                &&& b.history() == a.history()
                &&& if a.elapsed() > outing_end_time {
                    b.home_state() == HomeState::Wondering && b.elapsed()
                        == 0
                } else {
                    b.home_state() == a.home_state()
                        && b.elapsed() == a.elapsed()
                }
            },
            HomeState::Telescope { end_time } => {
                &&& b.history() == a.history()
                &&& fx.remove_stars == (a.elapsed() > end_time)
                &&& if a.elapsed() > end_time {
                    b.home_state() == HomeState::Wondering && b.elapsed()
                        == 0
                } else {
                    b.home_state() == a.home_state()
                        && b.elapsed() == a.elapsed()
                }
            },
            HomeState::Exploring => {
                &&& b.history() == a.history()
                &&& if frame.exploring {
                    b.home_state() == HomeState::Exploring && b.elapsed()
                        == a.elapsed()
                } else {
                    b.home_state() == HomeState::Wondering && b.elapsed()
                        == 0
                }
            },
        }
}

/// What `end_frame` does to the home state `a` in frame `frame`, giving `b`.
pub open spec fn end_frame_post(a: HomeSceneData, frame: HomeFrame, b: HomeSceneData) -> bool {
    &&& (b.home_state(), b.elapsed()) == if a.home_state() != HomeState::Alarm
        && frame.alarm_ringing && frame.alarm_furniture {
        changed(a.home_state(), a.elapsed(), HomeState::Alarm)
    } else {
        (a.home_state(), a.elapsed())
    }
    &&& frame.shiver && a.shiver_time() + frame.delta > SHIVER_SWITCH_MS ==> b.shiver_time() == 0
        && b.leaning_right() == !a.leaning_right()
    &&& frame.shiver && a.shiver_time() + frame.delta <= SHIVER_SWITCH_MS ==> b.shiver_time()
        == a.shiver_time() + frame.delta && b.leaning_right() == a.leaning_right()
    &&& !frame.shiver ==> b.shiver_time() == a.shiver_time() && b.leaning_right()
        == a.leaning_right()
    &&& b.wander_time() == a.wander_time()
    &&& b.word_timer() == a.word_timer()
    &&& b.dream() == a.dream()
    &&& b.history() == a.history()
    &&& b.wf() == a.wf()
}

/// The home screen's own state.
pub struct HomeSceneData {
    state: HomeState,
    state_elapsed: u64,
    wonder_end: u64,
    shake_duration: u64,
    shake_right: bool,
    next_word_spawn: u64,
    dream_bubble: DreamBubble,
    activity_history: Vec<u64>,
}

impl HomeSceneData {
    /// Every activity's time fits in the game clock with room for its cooldown.
    pub closed spec fn wf(self) -> bool {
        &&& self.activity_history.len() == ACTIVITY_COUNT
        &&& forall|i: int|
            0 <= i < ACTIVITY_COUNT ==> self.activity_history@[i] + 2 * 3_600_000 <= u64::MAX
    }

    pub closed spec fn home_state(self) -> HomeState {
        self.state
    }

    /// Milliseconds spent in the current state.
    pub closed spec fn elapsed(self) -> int {
        self.state_elapsed as int
    }

    /// Milliseconds of wandering about before the pet picks an activity.
    pub closed spec fn wander_time(self) -> int {
        self.wonder_end as int
    }

    pub closed spec fn shiver_time(self) -> int {
        self.shake_duration as int
    }

    pub closed spec fn leaning_right(self) -> bool {
        self.shake_right
    }

    pub closed spec fn word_timer(self) -> int {
        self.next_word_spawn as int
    }

    pub closed spec fn dream(self) -> (bool, u64) {
        (self.dream_bubble.show, self.dream_bubble.timer)
    }

    /// When each activity was last taken up, by `Activity::index`, in milliseconds.
    pub closed spec fn history(self) -> Seq<u64> {
        self.activity_history@
    }

    /// Wandering about from the start, nothing done yet.
    pub fn new() -> (r: Self)
        ensures
            r.wf(),
            r.home_state() == HomeState::Wondering,
            r.elapsed() == 0,
            r.wander_time() == 0,
            r.shiver_time() == 0,
            !r.leaning_right(),
            r.word_timer() == 0,
            r.dream() == (false, 0u64),
            r.history() == Seq::new(ACTIVITY_COUNT as nat, |i: int| 0u64),
    {
        let mut history: Vec<u64> = Vec::new();
        let mut i: usize = 0;
        while i < ACTIVITY_COUNT
            invariant
                i <= ACTIVITY_COUNT,
                history@ == Seq::new(i as nat, |j: int| 0u64),
            decreases ACTIVITY_COUNT - i,
        {
            history.push(0);
            i = i + 1;
        }
        HomeSceneData {
            state: HomeState::Wondering,
            state_elapsed: 0,
            wonder_end: 0,
            shake_duration: 0,
            shake_right: false,
            next_word_spawn: 0,
            dream_bubble: DreamBubble::new(),
            activity_history: history,
        }
    }

    /// Sets up the home screen the first time (while no wandering time is drawn yet): draws
    /// the wandering time and shows the dream bubble at once; true when it did.
    pub fn setup(&mut self, rng: &mut fastrand::Rng) -> (r: bool)
        ensures
            r == (old(self).wander_time() == 0),
            r ==> final(self).wander_time() < 300_000 && final(self).dream() == (true, 0u64),
            !r ==> final(self).wander_time() == old(self).wander_time() && final(self).dream()
                == old(self).dream(),
            final(self).home_state() == old(self).home_state(),
            final(self).elapsed() == old(self).elapsed(),
            final(self).shiver_time() == old(self).shiver_time(),
            final(self).leaning_right() == old(self).leaning_right(),
            final(self).word_timer() == old(self).word_timer(),
            final(self).history() == old(self).history(),
            final(self).wf() == old(self).wf(),
    {
        if self.wonder_end != 0 {
            return false;
        }
        self.wonder_end = reset_wonder_end(rng);
        self.dream_bubble = DreamBubble { show: true, timer: 0 };
        true
    }

    /// The state the pet is in.
    pub fn state(&self) -> (r: HomeState)
        ensures
            r == self.home_state(),
    {
        self.state
    }

    /// Changes to state `new_state`, starting its time again, unless the pet is in it already.
    pub fn change_state(&mut self, new_state: HomeState)
        ensures
            (final(self).home_state(), final(self).elapsed()) == changed(
                old(self).home_state(),
                old(self).elapsed(),
                new_state,
            ),
            final(self).wander_time() == old(self).wander_time(),
            final(self).shiver_time() == old(self).shiver_time(),
            final(self).leaning_right() == old(self).leaning_right(),
            final(self).word_timer() == old(self).word_timer(),
            final(self).dream() == old(self).dream(),
            final(self).history() == old(self).history(),
            final(self).wf() == old(self).wf(),
    {
        if self.state == new_state {
            return;
        }
        self.state = new_state;
        self.state_elapsed = 0;
    }

    /// The start of a frame: the time in the state grows by `delta`; the pet explores while it
    /// is away exploring, and otherwise goes to sleep or wakes up with the pet.
    pub fn begin_frame(&mut self, delta: u64, exploring: bool, sleeping: bool)
        requires
            old(self).elapsed() + delta <= u64::MAX,
        ensures
            begin_frame_post(*old(self), delta, exploring, sleeping, *final(self)),
    {
        self.state_elapsed = self.state_elapsed + delta;
        if exploring {
            self.change_state(HomeState::Exploring);
        } else if sleeping && self.state != HomeState::Sleeping {
            self.change_state(HomeState::Sleeping);
        } else if !sleeping && self.state == HomeState::Sleeping {
            self.change_state(HomeState::Wondering);
        }
    }

    /// What the pet does in the current state this frame. Wandering about, once its time is
    /// up the pet takes up an activity (see `wonder_end`). Sleeping, the dream bubble shows
    /// and hides. Each activity ends when its time is up (the television and the computer at
    /// their watching time, the music also when the pet is no longer happy, the book when the
    /// chapter is read), and the pet goes back to wandering about; meanwhile the television
    /// follows the show on, the computer changes program when one has run its time, and words
    /// float up from the book. The alarm rings until it stops, and the exploring ends when the
    /// pet is back.
    pub fn run_state(&mut self, frame: &HomeFrame, rng: &mut fastrand::Rng) -> (r: HomeEffects)
        requires
            old(self).wf(),
            frame.now + 2 * 3_600_000 <= u64::MAX,
            frame.conditions.watch_tv ==> frame.has_lcd || frame.has_crt,
            old(self).home_state() matches HomeState::PlayingComputer { program_run_time, .. }
                ==> program_run_time + frame.delta <= u64::MAX,
        ensures
            run_state_post(*old(self), *frame, r, *final(self)),
            final(self).shiver_time() == old(self).shiver_time(),
    {
        reveal(run_state_post);
        let mut fx = HomeEffects {
            plan: None,
            change_show: false,
            change_program: false,
            spawn_word: false,
            complete_chapter: false,
            push_alarm: false,
            clear_song: false,
            remove_stars: false,
            exploring_post: false,
        };
        match self.state {
            HomeState::Wondering => {
                if self.state_elapsed > self.wonder_end {
                    let (plan, next) = wonder_end(
                        rng,
                        &frame.conditions,
                        self.activity_history.as_mut_slice(),
                        frame.now,
                        frame.has_lcd,
                        frame.has_crt,
                    );
                    match plan {
                        Some(p) => {
                            self.change_state(state_of_plan(p, choose_book(frame.reading_book, frame.unread_book)));
                        },
                        None => {},
                    }
                    self.wonder_end = next;
                    fx.plan = plan;
                }
            },
            HomeState::Sleeping => {
                self.dream_bubble.tick(frame.delta, rng);
            },
            HomeState::WatchingTv { last_checked, watch_end } => {
                if self.state_elapsed > watch_end {
                    self.change_state(HomeState::Wondering);
                } else {
                    if frame.show_slot != last_checked {
                        fx.change_show = true;
                    }
                    self.state = HomeState::WatchingTv { last_checked: frame.show_slot, watch_end };
                }
            },
            HomeState::PlayingComputer { program_run_time, program_end_time, watch_end } => {
                let mut run = program_run_time + frame.delta;
                let mut end = program_end_time;
                if run > end {
                    run = 0;
                    end = rng_u64(rng, 30_000, 180_000);
                    fx.change_program = true;
                }
                if self.state_elapsed > watch_end {
                    self.change_state(HomeState::Wondering);
                } else {
                    self.state = HomeState::PlayingComputer {
                        program_run_time: run,
                        program_end_time: end,
                        watch_end,
                    };
                }
            },
            HomeState::ReadingBook { .. } => {
                self.next_word_spawn = if self.next_word_spawn >= frame.delta {
                    self.next_word_spawn - frame.delta
                } else {
                    0
                };
                if self.next_word_spawn == 0 {
                    self.next_word_spawn = rng_u64(rng, 2500, 10000);
                    fx.spawn_word = true;
                }
                if frame.chapter_done {
                    fx.complete_chapter = true;
                    self.change_state(HomeState::Wondering);
                }
            },
            HomeState::PlayingMp3 { jam_end_time } => {
                if self.state_elapsed > jam_end_time || !frame.mood_happy {
                    self.change_state(HomeState::Wondering);
                }
            },
            HomeState::Alarm => {
                if !frame.playing {
                    fx.push_alarm = true;
                }
                if !frame.alarm_ringing {
                    fx.clear_song = true;
                    self.change_state(HomeState::Wondering);
                }
            },
            HomeState::GoneOut { outing_end_time } => {
                if self.state_elapsed > outing_end_time {
                    self.change_state(HomeState::Wondering);
                }
            },
            HomeState::Telescope { end_time } => {
                if self.state_elapsed > end_time {
                    fx.remove_stars = true;
                    self.change_state(HomeState::Wondering);
                }
            },
            HomeState::Exploring => {
                if !frame.exploring {
                    self.change_state(HomeState::Wondering);
                    fx.exploring_post = true;
                }
            },
        }
        fx
    }

    /// The end of a frame: the alarm takes over when it rings and its clock stands in the
    /// home, and while the weather makes the pet shiver it leans the other way every
    /// `SHIVER_SWITCH_MS`.
    pub fn end_frame(&mut self, frame: &HomeFrame)
        requires
            old(self).shiver_time() + frame.delta <= u64::MAX,
        ensures
            end_frame_post(*old(self), *frame, *final(self)),
    {
        if self.state != HomeState::Alarm && frame.alarm_ringing && frame.alarm_furniture {
            self.change_state(HomeState::Alarm);
        }
        if frame.shiver {
            self.shake_duration = self.shake_duration + frame.delta;
            if self.shake_duration > SHIVER_SWITCH_MS {
                self.shake_right = !self.shake_right;
                self.shake_duration = 0;
            }
        }
    }
}

/// What the buttons do on the home screen.
#[derive(Clone, Copy, Debug, PartialEq, Eq, Structural)]
pub enum HomeInput {
    Nothing,
    /// Stop the alarm.
    AckAlarm,
    /// Open the menu entry (after playing its sound).
    Open(MenuOption),
}

/// The menu cursor and what the buttons do in a home screen frame, on menu `entries` with the
/// cursor at `cursor`: while the alarm rings any button stops it; otherwise left and right move
/// the cursor (left first, wrapping around) and the middle button opens the entry under it.
pub open spec fn menu_input_spec(
    state: HomeState,
    entries: Seq<MenuOption>,
    cursor: int,
    any: bool,
    left: bool,
    right: bool,
    middle: bool,
) -> (int, HomeInput) {
    if state == HomeState::Alarm {
        (cursor, if any {
            HomeInput::AckAlarm
        } else {
            HomeInput::Nothing
        })
    } else {
        let n = entries.len() as int;
        let c1 = if left {
            wrapped_index(n, cursor, -1)
        } else {
            cursor
        };
        let c2 = if right {
            wrapped_index(n, c1, 1)
        } else {
            c1
        };
        (c2, if middle {
            HomeInput::Open(
                if c2 < n {
                    entries[c2]
                } else {
                    MenuOption::PetInfo
                },
            )
        } else {
            HomeInput::Nothing
        })
    }
}

/// The buttons of a home screen frame: while the alarm rings any button stops it; otherwise
/// left and right move the menu cursor (left first) and the middle button opens the entry
/// under it.
pub fn menu_input(
    state: HomeState,
    options: &mut MenuOptions,
    any: bool,
    left: bool,
    right: bool,
    middle: bool,
) -> (r: HomeInput)
    requires
        0 < old(options).entries().len() <= MENU_OPTIONS_COUNT,
        old(options).cursor() < old(options).entries().len(),
    ensures
        final(options).entries() == old(options).entries(),
        (final(options).cursor(), r) == menu_input_spec(
            state,
            old(options).entries(),
            old(options).cursor(),
            any,
            left,
            right,
            middle,
        ),
        0 <= final(options).cursor() < final(options).entries().len(),
{
    proof {
        options.lemma_cursor_nonnegative();
    }
    if state == HomeState::Alarm {
        if any {
            return HomeInput::AckAlarm;
        }
        return HomeInput::Nothing;
    }
    if left {
        options.change_option(-1);
        proof {
            lemma_wrapped_index_laws(
                old(options).entries().len() as int,
                old(options).cursor(),
                -1,
            );
        }
    }
    if right {
        options.change_option(1);
    }
    if middle {
        return HomeInput::Open(options.current());
    }
    HomeInput::Nothing
}

/// The menu's view of a home state.
pub open spec fn menu_state_for(s: HomeState) -> MenuState {
    match s {
        HomeState::Sleeping => MenuState::Sleeping,
        HomeState::Exploring => MenuState::Exploring,
        HomeState::GoneOut { .. } => MenuState::GoneOut,
        _ => MenuState::Other,
    }
}

/// The menu's view of a home state, computed.
pub fn menu_state_of(s: HomeState) -> (r: MenuState)
    ensures
        r == menu_state_for(s),
{
    match s {
        HomeState::Sleeping => MenuState::Sleeping,
        HomeState::Exploring => MenuState::Exploring,
        HomeState::GoneOut { .. } => MenuState::GoneOut,
        _ => MenuState::Other,
    }
}

/// Everything a frame of the home screen reads from the game.
#[derive(Clone, Copy, Debug, PartialEq, Eq, Structural)]
pub struct HomeTick {
    /// The facts of the frame; its `shiver` is taken from the weather of this frame.
    pub frame: HomeFrame,
    /// Frames shown so far.
    pub frames: u64,
    pub sleeping: bool,
    pub poop_count: usize,
    pub is_ill: bool,
    pub is_starving: bool,
    pub egg_should_hatch: bool,
    /// What the pet would die of now, if anything.
    pub death: Option<DeathCause>,
    /// What the pet would evolve into now, if anything.
    pub evolve_to: Option<PetDefinitionId>,
    pub temperature: TemperatureLevel,
    pub menu: MenuConditions,
    pub any_pressed: bool,
    pub left: bool,
    pub right: bool,
    pub middle: bool,
}

/// How a frame of the home screen ends.
#[derive(Clone, Copy, Debug, PartialEq, Eq, Structural)]
pub enum HomeStep {
    /// Another screen takes over; the weather and the pet's activity were not updated.
    TakeOver { alerts: AlertSounds, takeover: HomeTakeover },
    /// The frame ran to its end.
    Continue { alerts: AlertSounds, weather: WeatherChange, effects: HomeEffects, input: HomeInput },
}

/// The menu entries and cursor a frame works with: the menu is built anew for state `s`
/// when the time in the state is zero or every tenth frame, keeping the cursor where it can.
pub open spec fn menu_for_frame(
    entries: Seq<MenuOption>,
    cursor: int,
    s: HomeState,
    elapsed: int,
    tick: HomeTick,
) -> (Seq<MenuOption>, int) {
    if elapsed == 0 || tick.frames % 10 == 0 {
        let e = shown_prefix(menu_state_for(s), tick.menu, 12);
        (e, if cursor < e.len() {
            cursor
        } else {
            0
        })
    } else {
        (entries, cursor)
    }
}

/// Which screen takes over in a frame: decided on the state after the pet went to sleep or
/// woke up.
pub open spec fn frame_takeover(s: HomeState, tick: HomeTick) -> Option<HomeTakeover> {
    takeover_for(
        state_after_sleep(s, tick.frame.exploring, tick.sleeping) == HomeState::Sleeping,
        tick.egg_should_hatch,
        tick.death,
        tick.evolve_to,
    )
}

/// The pet shivers in the cold and in the snow.
pub open spec fn shivers_in(w: WeatherKind) -> bool {
    w == WeatherKind::Cold || w == WeatherKind::Snow
}

impl HomeSceneData {
    /// One frame of the home screen, in order: the menu is built anew (when the time in the
    /// state is zero or every tenth frame), the time in the state grows and the pet goes to
    /// sleep or wakes up, the alerts are sounded; then, while the pet is awake, the egg
    /// hatching, death or evolving takes over and the frame stops there. Otherwise the
    /// weather follows the temperature, the pet does what its state asks (the frame stops
    /// when the exploring is over), the alarm takes over and the pet shivers in the cold,
    /// and last the buttons move the menu cursor or open an entry.
    #[verifier::rlimit(30)]
    #[verifier::spinoff_prover]
    pub fn frame(
        &mut self,
        alerts: &mut HomeAlerts,
        weather: &mut Weather,
        options: &mut MenuOptions,
        tick: &HomeTick,
        rng: &mut fastrand::Rng,
    ) -> (r: HomeStep)
        requires
            old(self).wf(),
            tick.frame.now + 2 * 3_600_000 <= u64::MAX,
            tick.frame.now >= old(alerts).last_poop_sound,
            tick.frame.conditions.watch_tv ==> tick.frame.has_lcd || tick.frame.has_crt,
            old(self).elapsed() + tick.frame.delta <= u64::MAX,
            old(self).shiver_time() + tick.frame.delta <= u64::MAX,
            old(self).home_state() matches HomeState::PlayingComputer { program_run_time, .. }
                ==> program_run_time + tick.frame.delta <= u64::MAX,
            !(old(self).elapsed() == 0 || tick.frames % 10 == 0) ==> 0 < old(
                options,
            ).entries().len() <= MENU_OPTIONS_COUNT && old(options).cursor() < old(
                options,
            ).entries().len(),
        ensures
            ({
                let (a2, snd) = alerts_after(
                    *old(alerts),
                    tick.poop_count,
                    tick.frame.now,
                    tick.is_ill,
                    tick.is_starving,
                );
                let (e0, c0) = menu_for_frame(
                    old(options).entries(),
                    old(options).cursor(),
                    old(self).home_state(),
                    old(self).elapsed(),
                    *tick,
                );
                &&& *final(alerts) == a2
                &&& (r is TakeOver) == (frame_takeover(old(self).home_state(), *tick) is Some)
                &&& final(options).entries() == e0
                &&& match r {
                    HomeStep::TakeOver { alerts: s, takeover: t } => {
                        &&& s == snd
                        &&& frame_takeover(old(self).home_state(), *tick) == Some(t)
                        &&& begin_frame_post(
                            *old(self),
                            tick.frame.delta,
                            tick.frame.exploring,
                            tick.sleeping,
                            *final(self),
                        )
                        &&& final(weather).current() == old(weather).current()
                        &&& final(options).cursor() == c0
                    },
                    HomeStep::Continue { alerts: s, weather: wc, effects: fx, input } => {
                        &&& s == snd
                        &&& final(weather).current() == weather_for(tick.temperature)
                        &&& wc == weather_change(old(weather).current(), tick.temperature)
                        &&& exists|m1: HomeSceneData, m2: HomeSceneData|
                            #![trigger run_state_post(m1, tick.frame, fx, m2)]
                            {
                                &&& begin_frame_post(
                                    *old(self),
                                    tick.frame.delta,
                                    tick.frame.exploring,
                                    tick.sleeping,
                                    m1,
                                )
                                &&& run_state_post(m1, tick.frame, fx, m2)
                                &&& fx.exploring_post ==> *final(self) == m2
                                &&& !fx.exploring_post ==> end_frame_post(
                                    m2,
                                    HomeFrame {
                                        shiver: shivers_in(weather_for(tick.temperature)),
                                        ..tick.frame
                                    },
                                    *final(self),
                                )
                            }
                        &&& fx.exploring_post ==> input == HomeInput::Nothing
                            && final(options).cursor() == c0
                        &&& !fx.exploring_post ==> (final(options).cursor(), input)
                            == menu_input_spec(
                            final(self).home_state(),
                            e0,
                            c0,
                            tick.any_pressed,
                            tick.left,
                            tick.right,
                            tick.middle,
                        )
                    },
                }
            }),
    {
        if self.state_elapsed == 0 || tick.frames % 10 == 0 {
            let current = options.current_index();
            *options = MenuOptions::new(menu_state_of(self.state), current, &tick.menu);
        }
        self.begin_frame(tick.frame.delta, tick.frame.exploring, tick.sleeping);
        let ghost m1 = *self;
        let sounds = alerts.tick(tick.poop_count, tick.frame.now, tick.is_ill, tick.is_starving);
        let sleeping_now = self.state == HomeState::Sleeping;
        match home_takeover(sleeping_now, tick.egg_should_hatch, tick.death, tick.evolve_to) {
            Some(t) => {
                return HomeStep::TakeOver { alerts: sounds, takeover: t };
            },
            None => {},
        }
        let (change, fx, input) = self.rest_of_frame(weather, options, tick, rng);
        proof {
            let m2 = choose|m2: HomeSceneData|
                #![trigger run_state_post(m1, tick.frame, fx, m2)]
                {
                    &&& run_state_post(m1, tick.frame, fx, m2)
                    &&& fx.exploring_post ==> *self == m2
                    &&& !fx.exploring_post ==> end_frame_post(
                        m2,
                        HomeFrame { shiver: shivers_in(weather_for(tick.temperature)), ..tick.frame },
                        *self,
                    )
                };
            assert(run_state_post(m1, tick.frame, fx, m2));
        }
        HomeStep::Continue { alerts: sounds, weather: change, effects: fx, input }
    }

    /// The part of a frame after no screen took over: the weather follows the temperature,
    /// the pet does what its state asks (stopping there when the exploring is over), the
    /// alarm and the shivering, and the buttons.
    #[verifier::spinoff_prover]
    fn rest_of_frame(
        &mut self,
        weather: &mut Weather,
        options: &mut MenuOptions,
        tick: &HomeTick,
        rng: &mut fastrand::Rng,
    ) -> (r: (WeatherChange, HomeEffects, HomeInput))
        requires
            old(self).wf(),
            tick.frame.now + 2 * 3_600_000 <= u64::MAX,
            tick.frame.conditions.watch_tv ==> tick.frame.has_lcd || tick.frame.has_crt,
            old(self).shiver_time() + tick.frame.delta <= u64::MAX,
            old(self).home_state() matches HomeState::PlayingComputer { program_run_time, .. }
                ==> program_run_time + tick.frame.delta <= u64::MAX,
            0 < old(options).entries().len() <= MENU_OPTIONS_COUNT,
            old(options).cursor() < old(options).entries().len(),
        ensures
            final(weather).current() == weather_for(tick.temperature),
            r.0 == weather_change(old(weather).current(), tick.temperature),
            final(options).entries() == old(options).entries(),
            exists|m2: HomeSceneData|
                #![trigger run_state_post(*old(self), tick.frame, r.1, m2)]
                {
                    &&& run_state_post(*old(self), tick.frame, r.1, m2)
                    &&& r.1.exploring_post ==> *final(self) == m2
                    &&& !r.1.exploring_post ==> end_frame_post(
                        m2,
                        HomeFrame { shiver: shivers_in(weather_for(tick.temperature)), ..tick.frame },
                        *final(self),
                    )
                },
            r.1.exploring_post ==> r.2 == HomeInput::Nothing && final(options).cursor() == old(
                options,
            ).cursor(),
            !r.1.exploring_post ==> (final(options).cursor(), r.2) == menu_input_spec(
                final(self).home_state(),
                old(options).entries(),
                old(options).cursor(),
                tick.any_pressed,
                tick.left,
                tick.right,
                tick.middle,
            ),
    {
        let ghost m1 = *self;
        let change = weather.tick(tick.temperature);
        let fx = self.run_state(&tick.frame, rng);
        let ghost m2 = *self;
        assert(run_state_post(m1, tick.frame, fx, m2));
        if fx.exploring_post {
            return (change, fx, HomeInput::Nothing);
        }
        let shaken = HomeFrame { shiver: weather.should_shake(), ..tick.frame };
        self.end_frame(&shaken);
        let input = menu_input(
            self.state,
            options,
            tick.any_pressed,
            tick.left,
            tick.right,
            tick.middle,
        );
        (change, fx, input)
    }
}

} // verus!
