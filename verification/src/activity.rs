//! What the pet does when it stops wandering about, and how often it may do it.
use vstd::prelude::*;

use heapless::Vec as HeaplessVec;

use crate::rng::{rng_choice, rng_u64};
use crate::tv::TvKind;

verus! {

/// Things the pet does at home.
#[derive(Clone, Copy, Debug, PartialEq, Eq, Structural)]
pub enum Activity {
    Wonder,
    PlayingComputer,
    WatchTv,
    ReadBook,
    ListenMusic,
    GoOut,
    Telescope,
}

/// Number of activities.
pub const ACTIVITY_COUNT: usize = 7;

/// Position of an activity in the activity history.
pub open spec fn activity_index(a: Activity) -> int {
    match a {
        Activity::Wonder => 0,
        Activity::PlayingComputer => 1,
        Activity::WatchTv => 2,
        Activity::ReadBook => 3,
        Activity::ListenMusic => 4,
        Activity::GoOut => 5,
        Activity::Telescope => 6,
    }
}

/// Time, in milliseconds, that must pass before the activity is done again.
pub open spec fn cooldown_ms(a: Activity) -> int {
    match a {
        Activity::Wonder => 0int,
        Activity::PlayingComputer => 900_000int,
        Activity::WatchTv => 900_000int,
        Activity::ReadBook => 7_200_000int,
        Activity::ListenMusic => 600_000int,
        Activity::GoOut => 3_600_000int,
        Activity::Telescope => 2_700_000int,
    }
}

impl Activity {
    /// Time, in milliseconds, that must pass before the activity is done again.
    pub fn cooldown(&self) -> (r: u64)
        ensures
            r == cooldown_ms(*self),
    {
        match self {
            Activity::Wonder => 0,
            Activity::PlayingComputer => 15 * 60_000,
            Activity::WatchTv => 15 * 60_000,
            Activity::ReadBook => 2 * 3_600_000,
            Activity::ListenMusic => 10 * 60_000,
            Activity::GoOut => 3_600_000,
            Activity::Telescope => 45 * 60_000,
        }
    }

    /// Position in the activity history.
    pub fn index(&self) -> (r: usize)
        ensures
            r == activity_index(*self),
    {
        match self {
            Activity::Wonder => 0,
            Activity::PlayingComputer => 1,
            Activity::WatchTv => 2,
            Activity::ReadBook => 3,
            Activity::ListenMusic => 4,
            Activity::GoOut => 5,
            Activity::Telescope => 6,
        }
    }
}

/// Whether the game allows each activity now, apart from its cooldown (the pet's age and
/// mood, the items it owns, the time of day).
#[derive(Clone, Copy, Debug, PartialEq, Eq, Structural)]
pub struct ActivityConditions {
    pub playing_computer: bool,
    pub watch_tv: bool,
    pub read_book: bool,
    pub listen_music: bool,
    pub go_out: bool,
    pub telescope: bool,
}

/// The facts about the pet, its home and the time that decide which activities it may take
/// up.
#[derive(Clone, Copy, Debug, PartialEq, Eq, Structural)]
pub struct ActivityFacts {
    /// The pet is still a baby.
    pub baby: bool,
    /// The pet is an adult.
    pub adult: bool,
    /// The pet is the Braino, which neither plays on the computer nor watches television.
    pub is_braino: bool,
    pub happy: bool,
    pub has_computer: bool,
    pub has_screen: bool,
    pub has_keyboard: bool,
    pub has_lcd: bool,
    pub has_crt: bool,
    pub has_mp3: bool,
    pub has_telescope: bool,
    /// Some book the pet may read is owned and not read through.
    pub has_book_to_read: bool,
    /// An egg is about to hatch.
    pub egg_hatching_soon: bool,
    /// The clock is in the hours the telescope is used.
    pub telescope_hours: bool,
}

/// Which activities the facts allow: the computer to an adult (not the Braino) owning a
/// computer, a screen and a keyboard; the television to a pet past babyhood (not the
/// Braino) owning one; reading when there is a book to read; music to a happy pet owning an
/// MP3 player; going out to a happy pet past babyhood while no egg is about to hatch; the
/// telescope to a pet past babyhood owning one, in its hours.
pub open spec fn conditions_for(f: ActivityFacts) -> ActivityConditions {
    ActivityConditions {
        playing_computer: f.adult && f.has_computer && f.has_screen && f.has_keyboard
            && !f.is_braino,
        watch_tv: !f.baby && (f.has_lcd || f.has_crt) && !f.is_braino,
        read_book: f.has_book_to_read,
        listen_music: f.has_mp3 && f.happy,
        go_out: !f.baby && f.happy && !f.egg_hatching_soon,
        telescope: !f.baby && f.has_telescope && f.telescope_hours,
    }
}

/// Which activities the facts allow (see `conditions_for`); the television is allowed only
/// when one is owned.
pub fn activity_conditions(f: &ActivityFacts) -> (r: ActivityConditions)
    ensures
        r == conditions_for(*f),
        r.watch_tv ==> f.has_lcd || f.has_crt,
        r.playing_computer == (f.adult && f.has_computer && f.has_screen && f.has_keyboard
            && !f.is_braino),
        r.watch_tv == (!f.baby && (f.has_lcd || f.has_crt) && !f.is_braino),
        r.read_book == f.has_book_to_read,
        r.listen_music == (f.has_mp3 && f.happy),
        r.go_out == (!f.baby && f.happy && !f.egg_hatching_soon),
        r.telescope == (!f.baby && f.has_telescope && f.telescope_hours),
{
    ActivityConditions {
        playing_computer: f.adult && f.has_computer && f.has_screen && f.has_keyboard
            && !f.is_braino,
        watch_tv: !f.baby && (f.has_lcd || f.has_crt) && !f.is_braino,
        read_book: f.has_book_to_read,
        listen_music: f.has_mp3 && f.happy,
        go_out: !f.baby && f.happy && !f.egg_hatching_soon,
        telescope: !f.baby && f.has_telescope && f.telescope_hours,
    }
}

/// Whether the conditions allow activity `a` (wandering about is always allowed).
pub open spec fn allowed(c: ActivityConditions, a: Activity) -> bool {
    match a {
        Activity::Wonder => true,
        Activity::PlayingComputer => c.playing_computer,
        Activity::WatchTv => c.watch_tv,
        Activity::ReadBook => c.read_book,
        Activity::ListenMusic => c.listen_music,
        Activity::GoOut => c.go_out,
        Activity::Telescope => c.telescope,
    }
}

/// Whether activity `a`, last done at `history[a]` (milliseconds), is off cooldown at `now`.
pub open spec fn off_cooldown(history: Seq<u64>, now: u64, a: Activity) -> bool {
    now > history[activity_index(a)] + cooldown_ms(a)
}

/// The order in which activities are offered.
pub open spec fn offer_order(i: int) -> Activity {
    if i == 0 {
        Activity::PlayingComputer
    } else if i == 1 {
        Activity::WatchTv
    } else if i == 2 {
        Activity::ReadBook
    } else if i == 3 {
        Activity::ListenMusic
    } else if i == 4 {
        Activity::GoOut
    } else if i == 5 {
        Activity::Telescope
    } else {
        Activity::Wonder
    }
}

/// The activities offered among the first `n` of the offer order.
pub open spec fn offered_prefix(c: ActivityConditions, history: Seq<u64>, now: u64, n: nat) -> Seq<
    Activity,
>
    decreases n,
{
    if n == 0 {
        Seq::empty()
    } else {
        let rest = offered_prefix(c, history, now, (n - 1) as nat);
        let a = offer_order(n - 1);
        if allowed(c, a) && off_cooldown(history, now, a) {
            rest.push(a)
        } else {
            rest
        }
    }
}

fn offer_order_exec(i: usize) -> (r: Activity)
    requires
        i < ACTIVITY_COUNT,
    ensures
        r == offer_order(i as int),
{
    if i == 0 {
        Activity::PlayingComputer
    } else if i == 1 {
        Activity::WatchTv
    } else if i == 2 {
        Activity::ReadBook
    } else if i == 3 {
        Activity::ListenMusic
    } else if i == 4 {
        Activity::GoOut
    } else if i == 5 {
        Activity::Telescope
    } else {
        Activity::Wonder
    }
}

fn is_allowed(c: &ActivityConditions, a: Activity) -> (r: bool)
    ensures
        r == allowed(*c, a),
{
    match a {
        Activity::Wonder => true,
        Activity::PlayingComputer => c.playing_computer,
        Activity::WatchTv => c.watch_tv,
        Activity::ReadBook => c.read_book,
        Activity::ListenMusic => c.listen_music,
        Activity::GoOut => c.go_out,
        Activity::Telescope => c.telescope,
    }
}

/// The activities an offer vector holds, in order.
pub uninterp spec fn activity_items(v: HeaplessVec<Activity, 7>) -> Seq<Activity>;

/// `heapless::Vec::new`: an empty vector.
#[verifier::external_body]
fn activity_vec_new() -> (r: HeaplessVec<Activity, 7>)
    ensures
        activity_items(r) == Seq::<Activity>::empty(),
{
    HeaplessVec::new()
}

/// `heapless::Vec::push`: appends `item` when fewer than 7 entries are held (and reports
/// success); a full vector is left as it was.
#[verifier::external_body]
fn activity_vec_push(v: &mut HeaplessVec<Activity, 7>, item: Activity) -> (r: bool)
    ensures
        activity_items(*old(v)).len() < 7 ==> activity_items(*final(v)) == activity_items(
            *old(v),
        ).push(item) && r,
        activity_items(*old(v)).len() >= 7 ==> activity_items(*final(v)) == activity_items(
            *old(v),
        ) && !r,
{
    v.push(item).is_ok()
}

/// `heapless::Vec::as_slice`: the entries held, in order.
#[verifier::external_body]
fn activity_vec_slice(v: &HeaplessVec<Activity, 7>) -> (r: &[Activity])
    ensures
        r@ == activity_items(*v),
{
    v.as_slice()
}

proof fn lemma_offered_prefix_len(c: ActivityConditions, history: Seq<u64>, now: u64, n: nat)
    ensures
        offered_prefix(c, history, now, n).len() <= n,
    decreases n,
{
    if n > 0 {
        lemma_offered_prefix_len(c, history, now, (n - 1) as nat);
    }
}

/// The activities the pet may pick when it stops wandering about, in the order they are
/// offered: each one the conditions allow whose cooldown has passed since it was last done
/// (`history`, indexed by `Activity::index`, in milliseconds), wandering about last.
pub fn wonder_options(conditions: &ActivityConditions, history: &[u64], now: u64) -> (r:
    HeaplessVec<Activity, 7>)
    requires
        history.len() == ACTIVITY_COUNT,
        forall|i: int| 0 <= i < ACTIVITY_COUNT ==> history[i] + 2 * 3_600_000 <= u64::MAX,
    ensures
        activity_items(r) == offered_prefix(*conditions, history@, now, 7),
{
    let mut options = activity_vec_new();
    let mut i: usize = 0;
    while i < ACTIVITY_COUNT
        invariant
            i <= ACTIVITY_COUNT,
            history.len() == ACTIVITY_COUNT,
            forall|j: int| 0 <= j < ACTIVITY_COUNT ==> history[j] + 2 * 3_600_000 <= u64::MAX,
            activity_items(options) == offered_prefix(*conditions, history@, now, i as nat),
        decreases ACTIVITY_COUNT - i,
    {
        proof {
            lemma_offered_prefix_len(*conditions, history@, now, i as nat);
        }
        let a = offer_order_exec(i);
        if is_allowed(conditions, a) && now > history[a.index()] + a.cooldown() {
            activity_vec_push(&mut options, a);
        }
        i = i + 1;
    }
    options
}

/// The activity the pet picks when it stops wandering about: one of `wonder_options`,
/// drawn at random; its entry of `history` becomes `now`. None when nothing is offered.
pub fn wonder_choice(
    rng: &mut fastrand::Rng,
    conditions: &ActivityConditions,
    history: &mut [u64],
    now: u64,
) -> (r: Option<Activity>)
    requires
        old(history).len() == ACTIVITY_COUNT,
        forall|i: int| 0 <= i < ACTIVITY_COUNT ==> old(history)[i] + 2 * 3_600_000 <= u64::MAX,
    ensures
        final(history).len() == ACTIVITY_COUNT,
        match r {
            Some(a) => offered_prefix(*conditions, old(history)@, now, 7).contains(a)
                && final(history)@ == old(history)@.update(activity_index(a), now),
            None => offered_prefix(*conditions, old(history)@, now, 7).len() == 0
                && final(history)@ == old(history)@,
        },
{
    let options = wonder_options(conditions, history, now);
    let offered = activity_vec_slice(&options);
    if offered.len() == 0 {
        return None;
    }
    let option = rng_choice(rng, offered).unwrap();
    history[option.index()] = now;
    Some(option)
}

/// The shortest run of a program on the computer, in milliseconds (thirty seconds).
pub const PROGRAM_RUN_MIN_MS: u64 = 30_000;

/// The longest run of a program on the computer (exclusive), in milliseconds.
pub const PROGRAM_RUN_MAX_MS: u64 = 180_000;

/// How long the pet wanders about before it picks something to do: a random whole number
/// of seconds below five minutes, in milliseconds.
pub fn reset_wonder_end(rng: &mut fastrand::Rng) -> (r: u64)
    ensures
        r < 300_000,
        r % 1000 == 0,
{
    rng_u64(rng, 0, 300) * 1000
}

/// What the pet sets out to do, with the times drawn for it (in milliseconds).
#[derive(Clone, Copy, Debug, PartialEq, Eq, Structural)]
pub enum ActivityPlan {
    Wondering,
    PlayingComputer { watch_end: u64, program_end_time: u64 },
    WatchingTv { tv: TvKind, watch_end: u64 },
    ReadingBook { read_time: u64 },
    PlayingMp3 { jam_end_time: u64 },
    GoneOut { outing_end_time: u64 },
    Telescope { end_time: u64 },
}

/// Whether `plan` is a plan for `a` with its times in their ranges: the computer for up to
/// five minutes running a program of 30 s to 3 min; the television (one the pet owns) for up
/// to five minutes; a book for 20 to 60 minutes; music for one to five minutes; going out
/// for 5 to 9 whole minutes and up to a minute more (in milliseconds); the telescope for 5 to
/// 19 whole minutes and 1 to 59 whole seconds more.
pub open spec fn plan_fits(a: Activity, plan: ActivityPlan, has_lcd: bool, has_crt: bool) -> bool {
    match a {
        Activity::Wonder => plan == ActivityPlan::Wondering,
        Activity::PlayingComputer => plan matches ActivityPlan::PlayingComputer {
            watch_end,
            program_end_time,
        } && watch_end < 300_000 && watch_end % 1000 == 0 && PROGRAM_RUN_MIN_MS
            <= program_end_time < PROGRAM_RUN_MAX_MS,
        Activity::WatchTv => plan matches ActivityPlan::WatchingTv { tv, watch_end } && (tv
            == TvKind::LCD && has_lcd || tv == TvKind::CRT && has_crt) && watch_end < 300_000
            && watch_end % 1000 == 0,
        Activity::ReadBook => plan matches ActivityPlan::ReadingBook { read_time }
            && 1_200_000 <= read_time < 3_600_000 && read_time % 1000 == 0,
        Activity::ListenMusic => plan matches ActivityPlan::PlayingMp3 { jam_end_time }
            && 60_000 <= jam_end_time < 300_000 && jam_end_time % 1000 == 0,
        Activity::GoOut => plan matches ActivityPlan::GoneOut { outing_end_time }
            && 300_000 <= outing_end_time < 600_000,
        Activity::Telescope => plan matches ActivityPlan::Telescope { end_time }
            && end_time % 1000 == 0 && 5 <= end_time / 60_000 < 20 && (end_time % 60_000)
            / 1000 >= 1,
    }
}

/// The televisions a vector of kinds holds, in order.
pub uninterp spec fn tv_items(v: HeaplessVec<TvKind, 2>) -> Seq<TvKind>;

/// `heapless::Vec::new`: an empty vector.
#[verifier::external_body]
fn tv_vec_new() -> (r: HeaplessVec<TvKind, 2>)
    ensures
        tv_items(r) == Seq::<TvKind>::empty(),
{
    HeaplessVec::new()
}

/// `heapless::Vec::push`: appends `item` when fewer than 2 entries are held (and reports
/// success); a full vector is left as it was.
#[verifier::external_body]
fn tv_vec_push(v: &mut HeaplessVec<TvKind, 2>, item: TvKind) -> (r: bool)
    ensures
        tv_items(*old(v)).len() < 2 ==> tv_items(*final(v)) == tv_items(*old(v)).push(item) && r,
        tv_items(*old(v)).len() >= 2 ==> tv_items(*final(v)) == tv_items(*old(v)) && !r,
{
    v.push(item).is_ok()
}

/// `heapless::Vec::as_slice`: the entries held, in order.
#[verifier::external_body]
fn tv_vec_slice(v: &HeaplessVec<TvKind, 2>) -> (r: &[TvKind])
    ensures
        r@ == tv_items(*v),
{
    v.as_slice()
}

/// Draws the times of activity `a`; for the television, which one the pet watches among
/// those it owns.
pub fn activity_plan(rng: &mut fastrand::Rng, a: Activity, has_lcd: bool, has_crt: bool) -> (r:
    ActivityPlan)
    requires
        a == Activity::WatchTv ==> has_lcd || has_crt,
    ensures
        plan_fits(a, r, has_lcd, has_crt),
{
    match a {
        Activity::Wonder => ActivityPlan::Wondering,
        Activity::PlayingComputer => {
            let watch_end = reset_wonder_end(rng);
            let program_end_time = rng_u64(rng, PROGRAM_RUN_MIN_MS, PROGRAM_RUN_MAX_MS);
            ActivityPlan::PlayingComputer { watch_end, program_end_time }
        },
        Activity::WatchTv => {
            let mut kinds = tv_vec_new();
            if has_lcd {
                tv_vec_push(&mut kinds, TvKind::LCD);
            }
            if has_crt {
                tv_vec_push(&mut kinds, TvKind::CRT);
            }
            let owned = tv_vec_slice(&kinds);
            let tv = rng_choice(rng, owned).unwrap();
            assert(tv == TvKind::LCD && has_lcd || tv == TvKind::CRT && has_crt) by {
                let k = choose|k: int| 0 <= k < owned@.len() && owned@[k] == tv;
            }
            let watch_end = reset_wonder_end(rng);
            ActivityPlan::WatchingTv { tv, watch_end }
        },
        Activity::ReadBook => {
            let read_time = rng_u64(rng, 1200, 3600) * 1000;
            ActivityPlan::ReadingBook { read_time }
        },
        Activity::ListenMusic => {
            let jam_end_time = rng_u64(rng, 60, 300) * 1000;
            ActivityPlan::PlayingMp3 { jam_end_time }
        },
        Activity::GoOut => {
            let minutes = rng_u64(rng, 5, 10);
            let millis = rng_u64(rng, 0, 60000);
            ActivityPlan::GoneOut { outing_end_time: minutes * 60_000 + millis }
        },
        Activity::Telescope => {
            let minutes = rng_u64(rng, 5, 20);
            let seconds = rng_u64(rng, 1, 60);
            ActivityPlan::Telescope { end_time: minutes * 60_000 + seconds * 1000 }
        },
    }
}

/// What the end of wandering about may give with `history` (last times of the activities)
/// at `now`: a plan for an activity offered, with that activity's time set to `now` in
/// `after`; or, when nothing is offered, no plan and the history as it was.
pub open spec fn wonder_outcome(
    c: ActivityConditions,
    history: Seq<u64>,
    now: u64,
    plan: Option<ActivityPlan>,
    has_lcd: bool,
    has_crt: bool,
    after: Seq<u64>,
) -> bool {
    match plan {
        Some(p) => exists|a: Activity|
            #![trigger offered_prefix(c, history, now, 7).contains(a)]
            offered_prefix(c, history, now, 7).contains(a) && plan_fits(a, p, has_lcd, has_crt)
                && after == history.update(activity_index(a), now),
        None => offered_prefix(c, history, now, 7).len() == 0 && after == history,
    }
}

/// The end of wandering about: picks an activity among those offered (recording it in
/// `history`) and draws its times, then draws how long the next wandering lasts.
pub fn wonder_end(
    rng: &mut fastrand::Rng,
    conditions: &ActivityConditions,
    history: &mut [u64],
    now: u64,
    has_lcd: bool,
    has_crt: bool,
) -> (r: (Option<ActivityPlan>, u64))
    requires
        old(history).len() == ACTIVITY_COUNT,
        forall|i: int| 0 <= i < ACTIVITY_COUNT ==> old(history)[i] + 2 * 3_600_000 <= u64::MAX,
        conditions.watch_tv ==> has_lcd || has_crt,
    ensures
        final(history).len() == ACTIVITY_COUNT,
        r.1 < 300_000,
        wonder_outcome(*conditions, old(history)@, now, r.0, has_lcd, has_crt, final(history)@),
{
    let choice = wonder_choice(rng, conditions, history, now);
    let plan = match choice {
        Some(a) => {
            proof {
                lemma_offered_allowed(*conditions, old(history)@, now, 7, a);
            }
            Some(activity_plan(rng, a, has_lcd, has_crt))
        },
        None => None,
    };
    let next = reset_wonder_end(rng);
    (plan, next)
}

/// Every activity offered is one the conditions allow.
proof fn lemma_offered_allowed(
    c: ActivityConditions,
    history: Seq<u64>,
    now: u64,
    n: nat,
    a: Activity,
)
    requires
        offered_prefix(c, history, now, n).contains(a),
    ensures
        allowed(c, a),
    decreases n,
{
    if n > 0 {
        let rest = offered_prefix(c, history, now, (n - 1) as nat);
        let b = offer_order(n - 1);
        if allowed(c, b) && off_cooldown(history, now, b) {
            if a != b {
                assert(rest.push(b).contains(a));
                let k = choose|k: int| 0 <= k < rest.push(b).len() && rest.push(b)[k] == a;
                assert(rest[k] == a);
                lemma_offered_allowed(c, history, now, (n - 1) as nat, a);
            }
        } else {
            lemma_offered_allowed(c, history, now, (n - 1) as nat, a);
        }
    }
}

/// Each activity needs what the game asks of it: music and going out a happy pet; the
/// computer an adult with a computer, a screen and a keyboard; television, going out and the
/// telescope a pet past babyhood; television a set owned; the telescope its hours; and the
/// Braino neither computer nor television. A happy pet owning an MP3 player may always listen
/// to music.
pub proof fn lemma_activity_needs(f: ActivityFacts)
    ensures
        conditions_for(f).listen_music ==> f.happy && f.has_mp3,
        f.happy && f.has_mp3 ==> conditions_for(f).listen_music,
        conditions_for(f).go_out ==> f.happy && !f.baby && !f.egg_hatching_soon,
        conditions_for(f).playing_computer ==> f.adult && f.has_computer && f.has_screen
            && f.has_keyboard && !f.is_braino,
        conditions_for(f).watch_tv ==> !f.baby && (f.has_lcd || f.has_crt) && !f.is_braino,
        conditions_for(f).telescope ==> !f.baby && f.has_telescope && f.telescope_hours,
        conditions_for(f).read_book == f.has_book_to_read,
        f.baby ==> !conditions_for(f).watch_tv && !conditions_for(f).go_out
            && !conditions_for(f).telescope,
{
}

/// The waits between two goes at an activity: none for wandering about, a quarter of an hour
/// for the computer and the television, two hours for a book, ten minutes for music, an hour
/// for going out and three quarters of an hour for the telescope. An activity done at `done`
/// is not offered again while `now` is at most `done` plus its wait, and is offered again
/// (as far as its wait goes) once `now` is past that.
pub proof fn lemma_cooldown_waits(history: Seq<u64>, now: u64, a: Activity, done: u64)
    requires
        history.len() == 7,
        history[activity_index(a)] == done,
    ensures
        cooldown_ms(Activity::Wonder) == 0,
        cooldown_ms(Activity::PlayingComputer) == 15 * 60_000,
        cooldown_ms(Activity::WatchTv) == 15 * 60_000,
        cooldown_ms(Activity::ReadBook) == 2 * 3_600_000,
        cooldown_ms(Activity::ListenMusic) == 10 * 60_000,
        cooldown_ms(Activity::GoOut) == 3_600_000,
        cooldown_ms(Activity::Telescope) == 45 * 60_000,
        now <= done + cooldown_ms(a) ==> !off_cooldown(history, now, a),
        now > done + cooldown_ms(a) ==> off_cooldown(history, now, a),
{
}

} // verus!
