//! Decisions of the mini games: the dodge game's lanes and falling garbage, and the
//! tic-tac-toe screen's cursor, opponent moves and rewards.
use vstd::prelude::*;

use crate::assets::StaticImage;
use crate::bit_array::{bit_set, lemma_zero_iff_no_bits, PossibleMoves, BIT_COUNT};
use crate::rng::{rng_bool, rng_i32, rng_u8_inclusive, rng_usize};
use crate::tic_tac_toe::{BoardStatus, Side};

verus! {

/// A lane of the dodge game.
#[derive(Clone, Copy, Debug, PartialEq, Eq, Structural)]
pub enum Lane {
    Left,
    Center,
    Right,
}

/// The lane to the left (the leftmost lane stays).
pub open spec fn lane_left(l: Lane) -> Lane {
    match l {
        Lane::Left | Lane::Center => Lane::Left,
        Lane::Right => Lane::Center,
    }
}

/// The lane to the right (the rightmost lane stays).
pub open spec fn lane_right(l: Lane) -> Lane {
    match l {
        Lane::Left => Lane::Center,
        Lane::Right | Lane::Center => Lane::Right,
    }
}

/// The lane for roll `n` of `0..=2`.
pub open spec fn lane_for_roll(n: int) -> Lane {
    if n == 0 {
        Lane::Left
    } else if n == 1 {
        Lane::Center
    } else {
        Lane::Right
    }
}

/// The lane for new garbage when lane `drawn` was drawn: a lane other than `last_lane` stays;
/// the same lane moves one lane left (`go_left`) or right.
pub open spec fn garbage_lane_for(drawn: Lane, last_lane: Lane, go_left: bool) -> Lane {
    if drawn != last_lane {
        drawn
    } else if go_left {
        lane_left(drawn)
    } else {
        lane_right(drawn)
    }
}

/// The lane for new garbage, given the lane drawn and the side drawn.
pub fn pick_garbage_lane(drawn: Lane, last_lane: Lane, go_left: bool) -> (r: Lane)
    ensures
        r == garbage_lane_for(drawn, last_lane, go_left),
{
    if drawn == last_lane {
        if go_left {
            drawn.left()
        } else {
            drawn.right()
        }
    } else {
        drawn
    }
}

impl Lane {
    pub fn left(&self) -> (r: Self)
        ensures
            r == lane_left(*self),
    {
        match self {
            Lane::Left | Lane::Center => Lane::Left,
            Lane::Right => Lane::Center,
        }
    }

    pub fn right(&self) -> (r: Self)
        ensures
            r == lane_right(*self),
    {
        match self {
            Lane::Left => Lane::Center,
            Lane::Right | Lane::Center => Lane::Right,
        }
    }

    /// The lane for a roll of `0..=2`: left, center, right.
    pub fn from_roll(n: u8) -> (r: Self)
        requires
            n <= 2,
        ensures
            r == lane_for_roll(n as int),
    {
        if n == 0 {
            Lane::Left
        } else if n == 1 {
            Lane::Center
        } else {
            Lane::Right
        }
    }

    /// A lane drawn at random: the lane for a roll of `0..=2`.
    pub fn random(rng: &mut fastrand::Rng) -> (r: Self) {
        let n = rng_u8_inclusive(rng, 0, 2);
        Lane::from_roll(n)
    }
}

/// The lane for a new piece of falling garbage: a random lane, moved one lane left or
/// right (at random) when it equals `last_lane`.
pub fn next_garbage_lane(rng: &mut fastrand::Rng, last_lane: Lane) -> (r: Lane)
    ensures
        r == last_lane ==> (last_lane == Lane::Left || last_lane == Lane::Right),
{
    let lane = Lane::random(rng);
    if lane == last_lane {
        let go_left = rng_bool(rng);
        pick_garbage_lane(lane, last_lane, go_left)
    } else {
        lane
    }
}

/// Kinds of falling garbage.
#[derive(Clone, Copy, Debug, PartialEq, Eq, Structural)]
pub enum GarbageKinds {
    Handheld,
    Branch,
    Brick,
}

impl GarbageKinds {
    pub fn image(&self) -> (r: StaticImage)
        ensures
            r == (match *self {
                GarbageKinds::Handheld => StaticImage::Handheld,
                GarbageKinds::Branch => StaticImage::Branch,
                GarbageKinds::Brick => StaticImage::Brick,
            }),
    {
        match self {
            GarbageKinds::Handheld => StaticImage::Handheld,
            GarbageKinds::Branch => StaticImage::Branch,
            GarbageKinds::Brick => StaticImage::Brick,
        }
    }

    /// The kind for a roll of `0..=2`: handheld, branch, brick.
    pub fn from_roll(n: u8) -> (r: Self)
        requires
            n <= 2,
        ensures
            r == (if n == 0 {
                GarbageKinds::Handheld
            } else if n == 1 {
                GarbageKinds::Branch
            } else {
                GarbageKinds::Brick
            }),
    {
        if n == 0 {
            GarbageKinds::Handheld
        } else if n == 1 {
            GarbageKinds::Branch
        } else {
            GarbageKinds::Brick
        }
    }

    /// A kind drawn at random: the kind for a roll of `0..=2`.
    pub fn random(rng: &mut fastrand::Rng) -> (r: Self) {
        let n = rng_u8_inclusive(rng, 0, 2);
        GarbageKinds::from_roll(n)
    }
}

/// Coins won in the dodge game when the pet dodged everything for the whole minute.
pub const DODGE_WIN_REWARD: i32 = 6000;

/// The tic-tac-toe cursor after a tick: left moves it back (from the first square it jumps
/// to `size`), right moves it on (from the last square back to the first); left goes first.
pub fn tic_tac_toe_cursor(selected: i8, left: bool, right: bool, size: u8) -> (r: i8)
    requires
        -1 <= selected <= 9,
        size <= 9,
    ensures
        ({
            let a: int = if left {
                if selected - 1 < 0 {
                    size as int
                } else {
                    selected - 1
                }
            } else {
                selected as int
            };
            r == if right {
                if a + 1 >= size {
                    0
                } else {
                    a + 1
                }
            } else {
                a
            }
        }),
{
    let mut s = selected;
    if left {
        s = s - 1;
        if s < 0 {
            s = size as i8;
        }
    }
    if right {
        s = s + 1;
        if s >= size as i8 {
            s = 0;
        }
    }
    s
}

/// The link-four cursor after a tick: left moves it back (from the first column to the
/// last), right moves it on (from the last column to the first); left goes first.
pub fn link_four_cursor(selected: isize, left: bool, right: bool) -> (r: isize)
    requires
        -1 <= selected <= 7,
    ensures
        ({
            let a: int = if left {
                if selected - 1 < 0 {
                    6
                } else {
                    selected - 1
                }
            } else {
                selected as int
            };
            r == if right {
                if a + 1 >= 7 {
                    0
                } else {
                    a + 1
                }
            } else {
                a
            }
        }),
{
    let mut s = selected;
    if left {
        s = s - 1;
        if s < 0 {
            s = 6;
        }
    }
    if right {
        s = s + 1;
        if s >= 7 {
            s = 0;
        }
    }
    s
}

/// Whether the player won and how many coins the game gives once it is over: 5000 for a
/// win, 1000 for a loss, 200 for a draw.
pub fn tic_tac_toe_reward(status: BoardStatus, player_side: Side) -> (r: (bool, i32))
    ensures
        r == (match status {
            BoardStatus::Win(win) => if win.side == player_side {
                (true, 5000i32)
            } else {
                (false, 1000i32)
            },
            _ => (false, 200i32),
        }),
{
    match status {
        BoardStatus::Win(win) => {
            if win.side == player_side {
                (true, 5000)
            } else {
                (false, 1000)
            }
        },
        _ => (false, 200),
    }
}

/// Number of set bits among the first `n`.
pub open spec fn count_set(b: u16, n: nat) -> nat
    decreases n,
{
    if n == 0 {
        0
    } else {
        count_set(b, (n - 1) as nat) + if bit_set(b, n - 1) {
            1nat
        } else {
            0nat
        }
    }
}

/// A set index drawn at random: the `k`-th set index for a random `k` below the number of
/// set indices, or none when the set is empty.
pub fn random_set_bit(moves: &PossibleMoves, rng: &mut fastrand::Rng) -> (r: Option<usize>)
    ensures
        r is None <==> forall|i: int| 0 <= i < 16 ==> !bit_set(moves@, i),
        r matches Some(i) ==> bit_set(moves@, i as int),
{
    let mut count: usize = 0;
    let mut i: usize = 0;
    while i < BIT_COUNT
        invariant
            i <= BIT_COUNT,
            count == count_set(moves@, i as nat),
            count <= i,
            count == 0 <==> forall|j: int| 0 <= j < i ==> !bit_set(moves@, j),
        decreases BIT_COUNT - i,
    {
        if moves.get_bit(i) {
            count = count + 1;
        }
        i = i + 1;
    }
    if count == 0 {
        return None;
    }
    let k = rng_usize(rng, 0, count);
    let mut seen: usize = 0;
    let mut j: usize = 0;
    while j < BIT_COUNT
        invariant
            j <= BIT_COUNT,
            seen == count_set(moves@, j as nat),
            k < count,
            count == count_set(moves@, 16),
            seen <= k,
        decreases BIT_COUNT - j,
    {
        if moves.get_bit(j) {
            if seen == k {
                return Some(j);
            }
            seen = seen + 1;
        }
        j = j + 1;
    }
    proof {
        assert(false);
    }
    None
}

/// The moves the opponent draws from for roll `roll`: the best moves found when it plays
/// one of them, all the legal moves otherwise.
pub open spec fn move_source(roll: i32, strength: i32, possible: u16, best: u16) -> u16 {
    if roll <= strength && best != 0u16 {
        best
    } else {
        possible
    }
}

/// Whether `r` is a move drawn from the set `from`: one of its moves, or none when it is
/// empty.
pub open spec fn move_drawn_from(r: Option<usize>, from: u16) -> bool {
    &&& r matches Some(i) ==> bit_set(from, i as int)
    &&& r is None <==> forall|i: int| 0 <= i < 16 ==> !bit_set(from, i)
}

/// Whether the opponent plays one of the best moves found: its roll of `0..100` does not
/// exceed its strength, and some best move was found.
pub fn plays_best(roll: i32, strength: i32, best_empty: bool) -> (b: bool)
    ensures
        b == (roll <= strength && !best_empty),
{
    roll <= strength && !best_empty
}

/// The opponent's move for the roll `roll`: one of the best moves drawn at random when it
/// plays one (see `plays_best`), otherwise one of all the legal moves drawn at random; none
/// when the set drawn from is empty.
pub fn opponent_move_for_roll(
    rng: &mut fastrand::Rng,
    roll: i32,
    strength: i32,
    possible: &PossibleMoves,
    best: &PossibleMoves,
) -> (r: Option<usize>)
    ensures
        move_drawn_from(r, move_source(roll, strength, possible@, best@)),
{
    if plays_best(roll, strength, best.is_empty()) {
        random_set_bit(best, rng)
    } else {
        random_set_bit(possible, rng)
    }
}

/// The opponent's move: a roll of `0..100` is drawn, and the move is that of
/// `opponent_move_for_roll` for it.
pub fn opponent_move(
    rng: &mut fastrand::Rng,
    strength: i32,
    possible: &PossibleMoves,
    best: &PossibleMoves,
) -> (r: Option<usize>)
    ensures
        exists|roll: i32|
            0 <= roll < 100 && move_drawn_from(
                r,
                #[trigger] move_source(roll, strength, possible@, best@),
            ),
        r matches Some(i) ==> bit_set(possible@, i as int) || bit_set(best@, i as int),
        (exists|i: int| 0 <= i < 16 && bit_set(possible@, i)) ==> r is Some,
{
    let roll = rng_i32(rng, 0, 100);
    let r = opponent_move_for_roll(rng, roll, strength, possible, best);
    proof {
        if best@ != 0u16 {
            lemma_zero_iff_no_bits(best@);
        }
    }
    r
}

} // verus!
