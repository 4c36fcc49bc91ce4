//! Tic-tac-toe: the board, its rules, and a negamax search for the best moves.
//!
//! Squares are numbered 0..9 row by row; a side's pieces are the set bits of a `u16`.
use vstd::prelude::*;

use crate::assets::StaticImage;
use crate::bit_array::{
    bit_set, lemma_bit_or, lemma_next_set_bit, lemma_zero_iff_no_bits, spec_next_set_bit,
    PossibleMoves, BIT_COUNT,
};
use crate::mini_games::count_set;
use crate::pet::PetDefinitionId;

verus! {

/// An opponent in the tic-tac-toe mini game and how well it plays (0..100).
#[derive(Clone, Copy, Debug, PartialEq, Eq, Structural)]
pub struct TicTacToeOpponent {
    pub pet_def_id: PetDefinitionId,
    pub strength: i32,
}

impl TicTacToeOpponent {
    pub fn new(pet: PetDefinitionId, strength: i32) -> (r: Self)
        ensures
            r.pet_def_id == pet,
            r.strength == strength,
    {
        TicTacToeOpponent { pet_def_id: pet, strength }
    }
}

/// A set of squares, one bit per square.
#[derive(Clone, Copy, Debug, PartialEq, Eq, Structural, Default, Hash)]
pub struct BitBoard(pub u16);

impl BitBoard {
    /// The set that holds only `square`.
    pub fn from_square(square: Square) -> (r: Self)
        requires
            square.0 < 16,
        ensures
            r.0 == 1u16 << square.0 as u16,
    {
        let k: u16 = square.0 as u16;
        BitBoard(1u16 << k)
    }
}

/// The two players.
#[derive(Clone, Copy, Debug, PartialEq, Eq, Structural, Hash)]
pub enum Side {
    X,
    O,
}

/// The side that is not `s`.
pub open spec fn other_side(s: Side) -> Side {
    match s {
        Side::X => Side::O,
        Side::O => Side::X,
    }
}

impl Side {
    /// Position of the side's pieces in a board (X first).
    pub fn to_index(self) -> (r: usize)
        ensures
            r == (if self == Side::X {
                0usize
            } else {
                1usize
            }),
    {
        match self {
            Side::X => 0,
            Side::O => 1,
        }
    }

    /// The side at position `index` (0 is X, 1 is O).
    pub fn from_index(index: usize) -> (r: Self)
        requires
            index < 2,
        ensures
            r == (if index == 0 {
                Side::X
            } else {
                Side::O
            }),
    {
        match index {
            0 => Side::X,
            _ => Side::O,
        }
    }

    /// The image drawn for this side's pieces.
    pub fn get_image(&self) -> (r: StaticImage)
        ensures
            r == (match *self {
                Side::X => StaticImage::TicTacToeCross,
                Side::O => StaticImage::TicTacToeCircle,
            }),
    {
        match self {
            Side::X => StaticImage::TicTacToeCross,
            Side::O => StaticImage::TicTacToeCircle,
        }
    }

    /// The opposing side.
    pub fn other(&self) -> (r: Self)
        ensures
            r == other_side(*self),
            r != *self,
    {
        match self {
            Side::X => Side::O,
            Side::O => Side::X,
        }
    }
}

/// A square of the board, 0 (top left) to 8 (bottom right).
#[derive(Clone, Copy, Debug, PartialEq, Eq, Structural, Default, Hash)]
pub struct Square(pub u8);

impl Square {
    pub fn new(val: u8) -> (r: Self)
        ensures
            r.0 == val,
    {
        Square(val)
    }
}

/// The winner and the line of three that won.
#[derive(Clone, Copy, Debug, PartialEq, Eq, Structural, Hash)]
pub struct WinInfo {
    pub side: Side,
    pub win_board: BitBoard,
}

impl WinInfo {
    pub fn new(side: Side, win_board: BitBoard) -> (r: Self)
        ensures
            r.side == side,
            r.win_board == win_board,
    {
        WinInfo { side, win_board }
    }
}

/// Whether the game goes on, ended level, or was won.
#[derive(Clone, Copy, Debug, PartialEq, Eq, Structural, Hash)]
pub enum BoardStatus {
    InProgress,
    Draw,
    Win(WinInfo),
}

/// The `k`-th winning line: three rows, three columns, two diagonals.
pub open spec fn win_line(k: int) -> u16 {
    if k == 0 {
        0b111000000u16
    } else if k == 1 {
        0b000111000u16
    } else if k == 2 {
        0b000000111u16
    } else if k == 3 {
        0b100100100u16
    } else if k == 4 {
        0b010010010u16
    } else if k == 5 {
        0b001001001u16
    } else if k == 6 {
        0b100010001u16
    } else {
        0b001010100u16
    }
}

/// Number of winning lines.
pub const WIN_COUNT: usize = 8;

/// Whether the pieces `bb` cover the whole line `w`.
pub open spec fn has_line(bb: u16, w: u16) -> bool {
    bb & w == w
}

/// The first winning line, from the `k`-th on, that `bb` covers.
pub open spec fn first_win(bb: u16, k: int) -> Option<u16>
    decreases 8 - k,
{
    if k < 0 || k >= 8 {
        None
    } else if has_line(bb, win_line(k)) {
        Some(win_line(k))
    } else {
        first_win(bb, k + 1)
    }
}

fn win_line_exec(k: usize) -> (r: u16)
    requires
        k < WIN_COUNT,
    ensures
        r == win_line(k as int),
{
    if k == 0 {
        0b111000000
    } else if k == 1 {
        0b000111000
    } else if k == 2 {
        0b000000111
    } else if k == 3 {
        0b100100100
    } else if k == 4 {
        0b010010010
    } else if k == 5 {
        0b001001001
    } else if k == 6 {
        0b100010001
    } else {
        0b001010100
    }
}

/// The first winning line that the pieces `bb` cover, in the order of `win_line`.
fn first_complete_line(bb: u16) -> (r: Option<u16>)
    ensures
        r == first_win(bb, 0),
{
    let mut k: usize = 0;
    while k < WIN_COUNT
        invariant
            k <= WIN_COUNT,
            first_win(bb, 0) == first_win(bb, k as int),
        decreases WIN_COUNT - k,
    {
        let win = win_line_exec(k);
        if bb & win == win {
            return Some(win);
        }
        k = k + 1;
    }
    None
}

/// A tic-tac-toe position: both sides' pieces, the side to move and the status.
#[derive(Clone, Copy)]
pub struct Board {
    size: u8,
    x_pieces: BitBoard,
    o_pieces: BitBoard,
    side_to_move: Side,
    status: BoardStatus,
}

impl Board {
    #[verifier::type_invariant]
    spec fn wf(self) -> bool {
        self.size == 9
    }

    /// The squares held by side `s`.
    pub closed spec fn pieces_of(self, s: Side) -> u16 {
        match s {
            Side::X => self.x_pieces.0,
            Side::O => self.o_pieces.0,
        }
    }

    /// The side whose turn it is.
    pub closed spec fn mover(self) -> Side {
        self.side_to_move
    }

    /// The status stored in the board.
    pub closed spec fn stored_status(self) -> BoardStatus {
        self.status
    }

    /// The board after `side_to_move` put a piece on square `sq`, before its status is updated.
    closed spec fn placed(self, sq: int) -> Board {
        let m: u16 = 1u16 << sq as u16;
        Board {
            size: self.size,
            x_pieces: if self.side_to_move == Side::X {
                BitBoard(self.x_pieces.0 | m)
            } else {
                self.x_pieces
            },
            o_pieces: if self.side_to_move == Side::O {
                BitBoard(self.o_pieces.0 | m)
            } else {
                self.o_pieces
            },
            side_to_move: other_side(self.side_to_move),
            status: self.status,
        }
    }

    /// The board after the side to move put a piece on square `sq`.
    pub closed spec fn after_move(self, sq: int) -> Board {
        let p = self.placed(sq);
        Board {
            size: p.size,
            x_pieces: p.x_pieces,
            o_pieces: p.o_pieces,
            side_to_move: p.side_to_move,
            status: spec_calc_status(p),
        }
    }
}

/// The squares that hold a piece of either side.
pub open spec fn filled(b: Board) -> u16 {
    b.pieces_of(Side::X) | b.pieces_of(Side::O)
}

/// Whether either side covers a winning line.
pub open spec fn spec_win_position(b: Board) -> bool {
    first_win(b.pieces_of(Side::X), 0) is Some || first_win(b.pieces_of(Side::O), 0) is Some
}

/// Whether square `i` is a legal move: nobody has won and the square is empty.
pub open spec fn spec_is_move(b: Board, i: int) -> bool {
    !spec_win_position(b) && 0 <= i < 9 && !bit_set(filled(b), i)
}

/// Whether the side to move has any legal move.
pub open spec fn spec_has_move(b: Board) -> bool {
    exists|i: int| spec_is_move(b, i)
}

/// The status of a position: X's first winning line, else O's, else a draw when no move
/// is left, else in progress.
pub open spec fn spec_calc_status(b: Board) -> BoardStatus {
    match first_win(b.pieces_of(Side::X), 0) {
        Some(w) => BoardStatus::Win(WinInfo { side: Side::X, win_board: BitBoard(w) }),
        None => match first_win(b.pieces_of(Side::O), 0) {
            Some(w) => BoardStatus::Win(WinInfo { side: Side::O, win_board: BitBoard(w) }),
            None => if spec_has_move(b) {
                BoardStatus::InProgress
            } else {
                BoardStatus::Draw
            },
        },
    }
}

/// What is on square `i`: X is looked at first, then O.
pub open spec fn spec_get_square(b: Board, i: int) -> Option<Side> {
    if bit_set(b.pieces_of(Side::X), i) {
        Some(Side::X)
    } else if bit_set(b.pieces_of(Side::O), i) {
        Some(Side::O)
    } else {
        None
    }
}

proof fn lemma_low_bit(x: u16)
    by (bit_vector)
    ensures
        (x & 1u16 == 0u16) <==> !(x & 1u16 == 1u16),
{
}

/// The status of a position depends on the pieces alone.
proof fn lemma_status_same_pieces(a: Board, b: Board)
    requires
        a.pieces_of(Side::X) == b.pieces_of(Side::X),
        a.pieces_of(Side::O) == b.pieces_of(Side::O),
    ensures
        spec_calc_status(a) == spec_calc_status(b),
        spec_has_move(a) == spec_has_move(b),
{
    assert forall|i: int| spec_is_move(a, i) == spec_is_move(b, i) by {}
    if spec_has_move(a) {
        let i = choose|i: int| spec_is_move(a, i);
        assert(spec_is_move(b, i));
    }
    if spec_has_move(b) {
        let i = choose|i: int| spec_is_move(b, i);
        assert(spec_is_move(a, i));
    }
}

proof fn lemma_zero_and(w: u16)
    by (bit_vector)
    ensures
        0u16 & w == 0u16,
        (0u16 | 0u16) >> 0u16 & 1u16 == 0u16,
{
}

/// A board without pieces is in progress: no line is covered and square 0 is free.
proof fn lemma_empty_board_in_progress(b: Board)
    requires
        b.pieces_of(Side::X) == 0,
        b.pieces_of(Side::O) == 0,
    ensures
        spec_calc_status(b) == BoardStatus::InProgress,
{
    assert forall|k: int| 0 <= k < 8 implies !has_line(0u16, win_line(k)) by {
        lemma_zero_and(win_line(k));
    }
    reveal_with_fuel(first_win, 9);
    assert(first_win(0u16, 0) is None);
    lemma_zero_and(0u16);
    assert(filled(b) == 0u16) by {
        assert((0u16 | 0u16) == 0u16) by (bit_vector);
    }
    assert(spec_is_move(b, 0));
}

proof fn lemma_bit_test(b: u16, i: u16)
    by (bit_vector)
    requires
        i < 16,
    ensures
        (b & (1u16 << i)) == (1u16 << i) <==> (b >> i) & 1u16 == 1u16,
{
}

impl Board {
    /// The empty board, X to move.
    pub fn new() -> (r: Self)
        ensures
            r.pieces_of(Side::X) == 0,
            r.pieces_of(Side::O) == 0,
            r.mover() == Side::X,
            r.stored_status() == BoardStatus::InProgress,
            spec_calc_status(r) == BoardStatus::InProgress,
            balanced(r),
            moves_made(r) == 0,
    {
        let r = Board {
            size: 9,
            x_pieces: BitBoard(0),
            o_pieces: BitBoard(0),
            side_to_move: Side::X,
            status: BoardStatus::InProgress,
        };
        proof {
            lemma_empty_board_in_progress(r);
            lemma_count_set_zero(16);
            assert(0u16 & 0u16 == 0u16) by (bit_vector);
        }
        r
    }

    /// Number of squares.
    pub fn size(&self) -> (r: u8)
        ensures
            r == 9,
    {
        proof {
            use_type_invariant(self);
        }
        self.size
    }

    pub fn side_to_move(&self) -> (r: Side)
        ensures
            r == self.mover(),
    {
        self.side_to_move
    }

    /// The pieces of side `side`.
    pub fn pieces(&self, side: Side) -> (r: BitBoard)
        ensures
            r.0 == self.pieces_of(side),
    {
        match side {
            Side::X => self.x_pieces,
            Side::O => self.o_pieces,
        }
    }

    /// Replaces the pieces of side `side`; nothing else changes.
    pub fn set_pieces(&mut self, side: Side, bb: BitBoard)
        ensures
            final(self).pieces_of(side) == bb.0,
            final(self).pieces_of(other_side(side)) == old(self).pieces_of(other_side(side)),
            final(self).mover() == old(self).mover(),
            final(self).stored_status() == old(self).stored_status(),
    {
        proof {
            use_type_invariant(&*self);
        }
        match side {
            Side::X => {
                self.x_pieces = bb;
            },
            Side::O => {
                self.o_pieces = bb;
            },
        }
    }

    /// The board after the side to move puts a piece on `game_move`; the turn passes to
    /// the other side and the status is recomputed.
    pub fn make_move_new(&self, game_move: Square) -> (r: Self)
        requires
            game_move.0 < 16,
        ensures
            r == self.after_move(game_move.0 as int),
            r.pieces_of(self.mover()) == self.pieces_of(self.mover()) | (1u16
                << game_move.0 as u16),
            r.pieces_of(other_side(self.mover())) == self.pieces_of(other_side(self.mover())),
            r.mover() == other_side(self.mover()),
            r.stored_status() == spec_calc_status(r),
    {
        proof {
            use_type_invariant(self);
        }
        let mut result = *self;
        let k: u16 = game_move.0 as u16;
        match result.side_to_move {
            Side::X => {
                result.x_pieces = BitBoard(result.x_pieces.0 | (1u16 << k));
            },
            Side::O => {
                result.o_pieces = BitBoard(result.o_pieces.0 | (1u16 << k));
            },
        }
        result.side_to_move = result.side_to_move.other();
        assert(result == self.placed(game_move.0 as int));
        result.status = result.calc_status();
        proof {
            lemma_status_same_pieces(result, self.placed(game_move.0 as int));
        }
        result
    }

    /// The legal moves: the empty squares, or none once a side has won.
    pub fn possible_moves(&self) -> (r: PossibleMoves)
        ensures
            forall|i: int| bit_set(r@, i) == spec_is_move(*self, i),
    {
        proof {
            use_type_invariant(self);
            lemma_zero_iff_no_bits(0u16);
        }
        if self.win_position() {
            return PossibleMoves::new();
        }
        let mut moves = PossibleMoves::new();
        let mut filled_bb: u16 = 0;
        filled_bb = filled_bb | self.x_pieces.0;
        filled_bb = filled_bb | self.o_pieces.0;
        assert(filled_bb == filled(*self)) by {
            let x = self.x_pieces.0;
            let o = self.o_pieces.0;
            assert((0u16 | x) | o == x | o) by (bit_vector);
        }
        let mut i: u8 = 0;
        while i < self.size
            invariant
                self.size == 9,
                filled_bb == filled(*self),
                !spec_win_position(*self),
                i <= 9,
                forall|j: int| #[trigger]
                    bit_set(moves@, j) == (0 <= j < i && !bit_set(filled_bb, j)),
            decreases 9 - i,
        {
            let k: u16 = i as u16;
            proof {
                lemma_low_bit(filled_bb >> k);
                assert(k == (i as int) as u16);
                assert(bit_set(filled_bb, i as int) == ((filled_bb >> k) & 1u16 == 1u16));
            }
            let ghost before = moves@;
            let empty = (filled_bb >> k) & 1 == 0;
            assert(empty == !bit_set(filled_bb, i as int));
            if empty {
                moves.set_bit(i as usize, true);
                assert(bit_set(moves@, i as int));
            } else {
                assert(!bit_set(moves@, i as int));
            }
            assert forall|j: int|
                bit_set(moves@, j) == (0 <= j < i + 1 && !bit_set(filled_bb, j)) by {
                if j != i as int {
                    assert(bit_set(moves@, j) == bit_set(before, j));
                    assert(bit_set(before, j) == (0 <= j < i && !bit_set(filled_bb, j)));
                } else {
                    assert(bit_set(moves@, j) == !bit_set(filled_bb, j));
                }
            }
            i = i + 1;
        }
        moves
    }

    /// Whether either side covers a winning line.
    pub fn win_position(&self) -> (r: bool)
        ensures
            r == spec_win_position(*self),
    {
        if first_complete_line(self.x_pieces.0).is_some() {
            return true;
        }
        if first_complete_line(self.o_pieces.0).is_some() {
            return true;
        }
        false
    }

    /// The status stored in the board.
    pub fn status(&self) -> (r: BoardStatus)
        ensures
            r == self.stored_status(),
    {
        self.status
    }

    /// Computes the status from the pieces.
    pub fn calc_status(&self) -> (r: BoardStatus)
        ensures
            r == spec_calc_status(*self),
    {
        match first_complete_line(self.x_pieces.0) {
            Some(w) => {
                return BoardStatus::Win(WinInfo::new(Side::from_index(0), BitBoard(w)));
            },
            None => {},
        }
        match first_complete_line(self.o_pieces.0) {
            Some(w) => {
                return BoardStatus::Win(WinInfo::new(Side::from_index(1), BitBoard(w)));
            },
            None => {},
        }
        let moves = self.possible_moves();
        if moves.is_empty() {
            assert(!spec_has_move(*self)) by {
                assert forall|i: int| !spec_is_move(*self, i) by {
                    assert(bit_set(moves@, i) == spec_is_move(*self, i));
                }
            }
            return BoardStatus::Draw;
        }
        assert(spec_has_move(*self)) by {
            let i = choose|i: int| 0 <= i < 16 && bit_set(moves@, i);
            assert(spec_is_move(*self, i));
        }
        BoardStatus::InProgress
    }

    /// The side holding `square`, X looked at first.
    pub fn get_square(&self, square: Square) -> (r: Option<Side>)
        requires
            square.0 < 16,
        ensures
            r == spec_get_square(*self, square.0 as int),
    {
        let sq_bb = BitBoard::from_square(square);
        proof {
            lemma_bit_test(self.x_pieces.0, square.0 as u16);
            lemma_bit_test(self.o_pieces.0, square.0 as u16);
        }
        if self.x_pieces.0 & sq_bb.0 == sq_bb.0 {
            return Some(Side::from_index(0));
        }
        if self.o_pieces.0 & sq_bb.0 == sq_bb.0 {
            return Some(Side::from_index(1));
        }
        None
    }
}

impl Default for Board {
    fn default() -> (r: Self)
        ensures
            r.pieces_of(Side::X) == 0,
            r.pieces_of(Side::O) == 0,
            r.mover() == Side::X,
            r.stored_status() == BoardStatus::InProgress,
    {
        Board::new()
    }
}


/// Number of squares among the first `n` that `f` leaves empty.
pub open spec fn count_empty(f: u16, n: nat) -> nat
    decreases n,
{
    if n == 0 {
        0
    } else {
        count_empty(f, (n - 1) as nat) + if bit_set(f, n - 1) {
            0nat
        } else {
            1nat
        }
    }
}

/// Number of empty squares of the board.
pub open spec fn empties(b: Board) -> nat {
    count_empty(filled(b), 9)
}

/// Value of a position for the side to move, looking no further: 1 if that side has won,
/// -1 if the other side has, 0 otherwise.
pub open spec fn eval(b: Board) -> int {
    match spec_calc_status(b) {
        BoardStatus::Win(info) => if info.side == b.mover() {
            1
        } else {
            -1
        },
        _ => 0,
    }
}

/// Negamax value of a position searched `d` plies deep (a negative `d` searches to the
/// end of the game): the evaluation at depth 0 or when no move is left, else the best
/// of the negated values of the positions after each move.
pub open spec fn negamax(b: Board, d: int) -> int
    decreases empties(b), 17nat,
{
    if d == 0 || !spec_has_move(b) {
        eval(b)
    } else {
        fold_scores(b, d - 1, 16)
    }
}

/// The largest of `-negamax(b.after_move(i), d)` over the moves `i < n`, or `i32::MIN`
/// when there is none.
pub open spec fn fold_scores(b: Board, d: int, n: nat) -> int
    decreases empties(b), n,
{
    if n == 0 {
        i32::MIN as int
    } else {
        let rest = fold_scores(b, d, (n - 1) as nat);
        if spec_is_move(b, n - 1) {
            proof {
                lemma_child_empties(b, n - 1);
            }
            let s = -negamax(b.after_move(n - 1), d);
            if s > rest {
                s
            } else {
                rest
            }
        } else {
            rest
        }
    }
}

proof fn lemma_or_bit_commutes(x: u16, o: u16, m: u16)
    by (bit_vector)
    ensures
        (x | m) | o == (x | o) | m,
        x | (o | m) == (x | o) | m,
{
}

/// After a move on square `i`, the filled squares are the old ones and `i`.
proof fn lemma_filled_after_move(b: Board, i: int)
    requires
        0 <= i < 16,
    ensures
        filled(b.after_move(i)) == filled(b) | (1u16 << i as u16),
        b.after_move(i).mover() == other_side(b.mover()),
{
    lemma_or_bit_commutes(b.pieces_of(Side::X), b.pieces_of(Side::O), 1u16 << i as u16);
}

/// `count_empty` only looks at the first `n` bits.
proof fn lemma_count_empty_same(f: u16, g: u16, n: nat)
    requires
        forall|j: int| 0 <= j < n ==> bit_set(f, j) == bit_set(g, j),
    ensures
        count_empty(f, n) == count_empty(g, n),
    decreases n,
{
    if n > 0 {
        lemma_count_empty_same(f, g, (n - 1) as nat);
    }
}

/// `count_empty(f, n) <= n`.
proof fn lemma_count_empty_le(f: u16, n: nat)
    ensures
        count_empty(f, n) <= n,
    decreases n,
{
    if n > 0 {
        lemma_count_empty_le(f, (n - 1) as nat);
    }
}

/// Filling the empty square `i < n` lowers the count of empty squares by one.
proof fn lemma_count_empty_fill(f: u16, i: int, n: nat)
    requires
        0 <= i < n <= 16,
        !bit_set(f, i),
    ensures
        count_empty(f | (1u16 << i as u16), n) + 1 == count_empty(f, n),
    decreases n,
{
    let g = f | (1u16 << i as u16);
    if i == n - 1 {
        assert forall|j: int| 0 <= j < n - 1 implies bit_set(f, j) == bit_set(g, j) by {
            lemma_bit_or(f, i as u16, j as u16);
        }
        lemma_count_empty_same(f, g, (n - 1) as nat);
        lemma_bit_or(f, i as u16, i as u16);
    } else {
        lemma_count_empty_fill(f, i, (n - 1) as nat);
        lemma_bit_or(f, i as u16, (n - 1) as u16);
    }
}

/// A move leaves one empty square fewer.
pub proof fn lemma_child_empties(b: Board, i: int)
    requires
        spec_is_move(b, i),
    ensures
        empties(b.after_move(i)) + 1 == empties(b),
{
    lemma_filled_after_move(b, i);
    lemma_count_empty_fill(filled(b), i, 9);
}

/// The negamax value of every position is -1, 0 or 1.
pub proof fn lemma_negamax_range(b: Board, d: int)
    ensures
        -1 <= negamax(b, d) <= 1,
    decreases empties(b), 17nat,
{
    if d == 0 || !spec_has_move(b) {
    } else {
        lemma_fold_scores_range(b, d - 1, 16);
        let i = choose|i: int| spec_is_move(b, i);
        assert(0 <= i < 16);
    }
}

/// `fold_scores` is `i32::MIN` exactly when there is no move below `n`, and in `-1..=1`
/// otherwise.
proof fn lemma_fold_scores_range(b: Board, d: int, n: nat)
    ensures
        (fold_scores(b, d, n) == i32::MIN && forall|i: int| 0 <= i < n ==> !spec_is_move(b, i))
            || (-1 <= fold_scores(b, d, n) <= 1 && exists|i: int|
            0 <= i < n && spec_is_move(b, i)),
    decreases empties(b), n,
{
    if n > 0 {
        lemma_fold_scores_range(b, d, (n - 1) as nat);
        if spec_is_move(b, n - 1) {
            lemma_child_empties(b, n - 1);
            lemma_negamax_range(b.after_move(n - 1), d);
            assert(spec_is_move(b, n - 1));
        } else {
            if fold_scores(b, d, (n - 1) as nat) != i32::MIN {
                let i = choose|i: int| 0 <= i < n - 1 && spec_is_move(b, i);
                assert(0 <= i < n && spec_is_move(b, i));
            }
        }
    }
}

/// The value of a position for the side to move, looking no further.
fn evaluate(board: &Board) -> (r: i32)
    ensures
        r == eval(*board),
        spec_calc_status(*board) == BoardStatus::Draw ==> r == 0,
        spec_calc_status(*board) == BoardStatus::InProgress ==> r == 0,
        spec_calc_status(*board) matches BoardStatus::Win(info) ==> r == (if info.side
            == board.mover() {
            1int
        } else {
            -1int
        }),
{
    match board.calc_status() {
        BoardStatus::InProgress | BoardStatus::Draw => 0,
        BoardStatus::Win(info) => {
            if info.side == board.side_to_move {
                1
            } else {
                -1
            }
        },
    }
}

/// Negamax search of `board` to `depth` plies.
fn nega_max(board: &Board, depth: i32) -> (r: i32)
    requires
        depth >= 0 || depth >= i32::MIN + empties(*board),
    ensures
        r == negamax(*board, depth as int),
    decreases empties(*board),
{
    if depth == 0 {
        return evaluate(board);
    }
    let mut max = i32::MIN;
    let squares = board.possible_moves();
    if squares.is_empty() {
        proof {
            assert forall|i: int| !spec_is_move(*board, i) by {
                assert(bit_set(squares@, i) == spec_is_move(*board, i));
            }
        }
        return evaluate(board);
    }
    proof {
        let i = choose|i: int| 0 <= i < 16 && bit_set(squares@, i);
        assert(spec_is_move(*board, i));
        lemma_child_empties(*board, i);
    }
    let mut i: usize = 0;
    while i < BIT_COUNT
        invariant
            i <= BIT_COUNT,
            depth != 0,
            depth >= 0 || depth >= i32::MIN + empties(*board),
            empties(*board) >= 1,
            spec_has_move(*board),
            forall|j: int| #[trigger] bit_set(squares@, j) == spec_is_move(*board, j),
            max == fold_scores(*board, depth - 1, i as nat),
        decreases BIT_COUNT - i,
    {
        if squares.get_bit(i) {
            let square = Square(i as u8);
            let new_board = board.make_move_new(square);
            proof {
                lemma_child_empties(*board, i as int);
                lemma_negamax_range(new_board, depth - 1);
            }
            let score = -nega_max(&new_board, depth - 1);
            if score > max {
                max = score;
            }
        }
        i = i + 1;
    }
    max
}


/// Score of move `i` for the side to move, searched `d` plies deeper.
pub open spec fn move_score(b: Board, d: int, i: int) -> int {
    -negamax(b.after_move(i), d)
}

/// Moves that are not below `c` but are below `a` leave `fold_scores` unchanged.
proof fn lemma_fold_scores_skip(b: Board, d: int, a: nat, c: nat)
    requires
        a <= c,
        forall|j: int| a <= j < c ==> !spec_is_move(b, j),
    ensures
        fold_scores(b, d, c) == fold_scores(b, d, a),
    decreases c,
{
    if c > a {
        lemma_fold_scores_skip(b, d, a, (c - 1) as nat);
    }
}

/// `fold_scores(b, d, n)` is at least the score of every move below `n`.
proof fn lemma_fold_scores_ge(b: Board, d: int, n: nat)
    ensures
        forall|j: int|
            0 <= j < n && spec_is_move(b, j) ==> move_score(b, d, j) <= fold_scores(b, d, n),
    decreases n,
{
    if n > 0 {
        lemma_fold_scores_ge(b, d, (n - 1) as nat);
    }
}

/// When some move lies below `n`, `fold_scores(b, d, n)` is the score of one of them.
proof fn lemma_fold_scores_attained(b: Board, d: int, n: nat)
    requires
        exists|j: int| 0 <= j < n && spec_is_move(b, j),
    ensures
        exists|j: int|
            0 <= j < n && spec_is_move(b, j) && move_score(b, d, j) == fold_scores(b, d, n),
    decreases n,
{
    let k = n - 1;
    if spec_is_move(b, k) {
        let s = move_score(b, d, k);
        if s > fold_scores(b, d, k as nat) {
            assert(move_score(b, d, k) == fold_scores(b, d, n));
        } else {
            lemma_fold_scores_range(b, d, k as nat);
            lemma_negamax_range(b.after_move(k), d);
            if exists|j: int| 0 <= j < k && spec_is_move(b, j) {
                lemma_fold_scores_attained(b, d, k as nat);
            } else {
                assert(move_score(b, d, k) == fold_scores(b, d, n));
            }
        }
    } else {
        let j = choose|j: int| 0 <= j < n && spec_is_move(b, j);
        assert(0 <= j < k);
        lemma_fold_scores_attained(b, d, k as nat);
    }
}

/// The effect of examining move `idx` on the search state (index, rating, best moves):
/// a lower score changes nothing, an equal score adds `idx` to the best moves, a higher
/// score makes `idx` the only best move and its score the rating.
pub open spec fn search_step(b: Board, d: int, rating: int, best: u16, idx: int) -> (
    int,
    int,
    u16,
) {
    let sc = move_score(b, d, idx);
    if sc < rating {
        (idx + 1, rating, best)
    } else if sc == rating {
        (idx + 1, rating, best | (1u16 << idx as u16))
    } else {
        (idx + 1, sc, 0u16 | (1u16 << idx as u16))
    }
}

/// The search state (index, rating, best moves, finished) after examining at most `n`
/// more moves of `moves`, starting at index `cur`.
pub open spec fn search_run(
    b: Board,
    d: int,
    moves: u16,
    cur: int,
    rating: int,
    best: u16,
    n: nat,
) -> (int, int, u16, bool)
    decreases n,
{
    if n == 0 || cur >= 16 {
        (cur, rating, best, cur >= 16)
    } else {
        match spec_next_set_bit(moves, cur) {
            None => (cur, rating, best, true),
            Some(idx) => {
                let (c2, r2, b2) = search_step(b, d, rating, best, idx);
                search_run(b, d, moves, c2, r2, b2, (n - 1) as nat)
            },
        }
    }
}

/// A consistent search state of position `b` at depth `d`: the moves to examine are the
/// legal moves, and the rating and best moves are those of the legal moves below `cur`.
pub open spec fn run_inv(b: Board, d: int, moves: u16, cur: int, rating: int, best: u16) -> bool {
    &&& forall|i: int| #[trigger] bit_set(moves, i) == spec_is_move(b, i)
    &&& 0 <= cur <= 16
    &&& rating == fold_scores(b, d, cur as nat)
    &&& forall|i: int| #[trigger]
        bit_set(best, i) == (0 <= i < cur && spec_is_move(b, i) && move_score(b, d, i) == rating)
}

/// A game: the board and the status recorded after the last move.
pub struct TicTacToeGame {
    board: Board,
    status: BoardStatus,
}

impl TicTacToeGame {
    pub closed spec fn game_board(self) -> Board {
        self.board
    }

    pub closed spec fn game_status(self) -> BoardStatus {
        self.status
    }

    /// A new game on the empty board, X to move.
    pub fn new() -> (r: Self)
        ensures
            r.game_board().pieces_of(Side::X) == 0,
            r.game_board().pieces_of(Side::O) == 0,
            r.game_board().mover() == Side::X,
            r.game_board().stored_status() == BoardStatus::InProgress,
            spec_calc_status(r.game_board()) == BoardStatus::InProgress,
            r.game_status() == BoardStatus::InProgress,
    {
        TicTacToeGame { board: Board::new(), status: BoardStatus::InProgress }
    }

    pub fn board(&self) -> (r: &Board)
        ensures
            *r == self.game_board(),
    {
        &self.board
    }

    /// Plays `game_move` for the side to move and records the new status.
    pub fn make_move(&mut self, game_move: Square)
        requires
            game_move.0 < 16,
        ensures
            final(self).game_board() == old(self).game_board().after_move(game_move.0 as int),
            final(self).game_board().mover() == other_side(old(self).game_board().mover()),
            final(self).game_status() == spec_calc_status(final(self).game_board()),
            final(self).game_status() == final(self).game_board().stored_status(),
    {
        self.board = self.board.make_move_new(game_move);
        self.status = self.board.calc_status();
    }
}

impl Default for TicTacToeGame {
    fn default() -> (r: Self)
        ensures
            r.game_board().pieces_of(Side::X) == 0,
            r.game_board().pieces_of(Side::O) == 0,
            r.game_board().mover() == Side::X,
            r.game_status() == BoardStatus::InProgress,
    {
        TicTacToeGame::new()
    }
}

/// A search for the best moves of a position, run a few moves at a time.
pub struct BestMoveSearch {
    board: Board,
    moves: PossibleMoves,
    current_index: usize,
    best_rating: i32,
    best_moves: PossibleMoves,
    depth: i32,
}

impl BestMoveSearch {
    /// The position searched.
    pub closed spec fn search_board(self) -> Board {
        self.board
    }

    /// How deep each move is searched.
    pub closed spec fn search_depth(self) -> int {
        self.depth as int
    }

    /// The moves to examine.
    pub closed spec fn search_moves(self) -> u16 {
        self.moves@
    }

    /// The next index to examine.
    pub closed spec fn search_index(self) -> int {
        self.current_index as int
    }

    /// The best score found so far.
    pub closed spec fn search_rating(self) -> int {
        self.best_rating as int
    }

    /// The moves with the best score found so far.
    pub closed spec fn search_best(self) -> u16 {
        self.best_moves@
    }

    /// The state of a search begun with `new`: the moves to examine are the legal moves,
    /// and the rating and best moves are those of the moves below the next index.
    pub open spec fn search_inv(self) -> bool {
        run_inv(
            self.search_board(),
            self.search_depth(),
            self.search_moves(),
            self.search_index(),
            self.search_rating(),
            self.search_best(),
        )
    }

    /// No move is left to examine.
    pub open spec fn search_done(self) -> bool {
        self.search_index() >= 16 || spec_next_set_bit(self.search_moves(), self.search_index())
            is None
    }

    /// A search of the legal moves of `board`, each searched `depth` plies deeper.
    pub fn new(board: Board, depth: i32) -> (r: Self)
        ensures
            r.search_board() == board,
            r.search_depth() == depth,
            forall|i: int| #[trigger] bit_set(r.search_moves(), i) == spec_is_move(board, i),
            r.search_index() == 0,
            r.search_rating() == i32::MIN,
            r.search_best() == 0,
            r.search_inv(),
    {
        let moves = board.possible_moves();
        let best_moves = PossibleMoves::new();
        BestMoveSearch {
            board,
            moves,
            current_index: 0,
            best_rating: i32::MIN,
            best_moves,
            depth,
        }
    }

    /// A search of nothing: the empty board, no moves to examine, rating 0, depth 0.
    pub fn empty() -> (r: Self)
        ensures
            r.search_board().pieces_of(Side::X) == 0,
            r.search_board().pieces_of(Side::O) == 0,
            r.search_board().mover() == Side::X,
            r.search_board().stored_status() == BoardStatus::InProgress,
            r.search_depth() == 0,
            r.search_moves() == 0,
            r.search_index() == 0,
            r.search_rating() == 0,
            r.search_best() == 0,
    {
        BestMoveSearch {
            board: Board::new(),
            moves: PossibleMoves::new(),
            current_index: 0,
            best_rating: 0,
            best_moves: PossibleMoves::new(),
            depth: 0,
        }
    }

    /// The moves with the best score found so far.
    pub fn best_moves(&self) -> (r: &PossibleMoves)
        ensures
            r@ == self.search_best(),
    {
        &self.best_moves
    }

    /// Examines up to `chunk` more moves; true when no move is left to examine.
    pub fn step(&mut self, chunk: usize) -> (r: bool)
        requires
            old(self).search_depth() >= i32::MIN + 9,
        ensures
            final(self).search_board() == old(self).search_board(),
            final(self).search_depth() == old(self).search_depth(),
            final(self).search_moves() == old(self).search_moves(),
            (final(self).search_index(), final(self).search_rating(), final(self).search_best(), r)
                == search_run(
                old(self).search_board(),
                old(self).search_depth(),
                old(self).search_moves(),
                old(self).search_index(),
                old(self).search_rating(),
                old(self).search_best(),
                chunk as nat,
            ),
            r ==> final(self).search_done(),
            old(self).search_inv() ==> final(self).search_inv(),
            old(self).search_inv() ==> forall|i: int| #[trigger]
                bit_set(final(self).search_best(), i) ==> spec_is_move(final(self).search_board(), i)
                    && i < final(self).search_index(),
            old(self).search_inv() ==> ((final(self).search_best() == 0) == (forall|i: int|
                0 <= i < final(self).search_index() ==> !spec_is_move(final(self).search_board(), i))),
            old(self).search_inv() && r ==> ((final(self).search_best() == 0) == (forall|i: int|
                !spec_is_move(final(self).search_board(), i))),
            old(self).search_inv() && r ==> forall|i: int| #[trigger]
                bit_set(final(self).search_best(), i) <==> (spec_is_move(final(self).search_board(), i)
                    && forall|j: int| spec_is_move(final(self).search_board(), j) ==> move_score(
                    final(self).search_board(),
                    final(self).search_depth(),
                    j,
                ) <= move_score(final(self).search_board(), final(self).search_depth(), i)),
    {
        let mut processed: usize = 0;
        let total_bits = self.moves.bit_count();
        while processed < chunk && self.current_index < total_bits
            invariant
                processed <= chunk,
                total_bits == 16,
                self.board == old(self).board,
                self.depth == old(self).depth,
                self.moves@ == old(self).moves@,
                self.depth >= i32::MIN + 9,
                search_run(
                    self.search_board(),
                    self.search_depth(),
                    self.search_moves(),
                    self.search_index(),
                    self.search_rating(),
                    self.search_best(),
                    (chunk - processed) as nat,
                ) == search_run(
                    old(self).search_board(),
                    old(self).search_depth(),
                    old(self).search_moves(),
                    old(self).search_index(),
                    old(self).search_rating(),
                    old(self).search_best(),
                    chunk as nat,
                ),
                old(self).search_inv() ==> self.search_inv(),
            decreases chunk - processed,
        {
            proof {
                lemma_next_set_bit(self.moves@, self.current_index as int);
            }
            match self.moves.next_set_bit(self.current_index) {
                Some(index) => {
                    let ghost before = *self;
                    let square = Square(index as u8);
                    let new_board = self.board.make_move_new(square);
                    proof {
                        lemma_count_empty_le(filled(new_board), 9);
                        lemma_negamax_range(new_board, self.depth as int);
                    }
                    let score = -nega_max(&new_board, self.depth);
                    if score < self.best_rating {
                    } else if score == self.best_rating {
                        self.best_moves.set_bit(index, true);
                    } else {
                        self.best_moves = PossibleMoves::new();
                        self.best_rating = score;
                        self.best_moves.set_bit(index, true);
                    }
                    self.current_index = index + 1;
                    processed = processed + 1;
                    proof {
                        if before.search_inv() {
                            lemma_search_step_inv(
                                before.search_board(),
                                before.search_depth(),
                                before.search_moves(),
                                before.search_index(),
                                before.search_rating(),
                                before.search_best(),
                                index as int,
                            );
                        }
                    }
                },
                None => {
                    proof {
                        if old(self).search_inv() {
                            lemma_inv_facts(
                                self.search_board(),
                                self.search_depth(),
                                self.search_moves(),
                                self.search_index(),
                                self.search_rating(),
                                self.search_best(),
                            );
                        }
                    }
                    return true;
                },
            }
        }
        let done = self.current_index >= total_bits;
        proof {
            if old(self).search_inv() {
                lemma_inv_facts(
                    self.search_board(),
                    self.search_depth(),
                    self.search_moves(),
                    self.search_index(),
                    self.search_rating(),
                    self.search_best(),
                );
            }
        }
        done
    }
}

impl Default for BestMoveSearch {
    fn default() -> (r: Self)
        ensures
            r.search_depth() == 0,
            r.search_moves() == 0,
            r.search_index() == 0,
            r.search_rating() == 0,
            r.search_best() == 0,
    {
        BestMoveSearch::empty()
    }
}

/// Examining the next move keeps a search consistent.
proof fn lemma_search_step_inv(
    b: Board,
    d: int,
    moves: u16,
    cur: int,
    rating: int,
    best: u16,
    idx: int,
)
    requires
        run_inv(b, d, moves, cur, rating, best),
        cur < 16,
        spec_next_set_bit(moves, cur) == Some(idx),
    ensures
        ({
            let (c2, r2, b2) = search_step(b, d, rating, best, idx);
            c2 == idx + 1 && run_inv(b, d, moves, c2, r2, b2)
        }),
{
    lemma_next_set_bit(moves, cur);
    assert(spec_is_move(b, idx));
    assert forall|j: int| cur <= j < idx implies !spec_is_move(b, j) by {
        assert(!bit_set(moves, j));
    }
    lemma_fold_scores_skip(b, d, cur as nat, idx as nat);
    lemma_fold_scores_ge(b, d, cur as nat);
    let sc = move_score(b, d, idx);
    let (c2, r2, b2) = search_step(b, d, rating, best, idx);
    assert(fold_scores(b, d, (idx + 1) as nat) == if sc > rating {
        sc
    } else {
        rating
    });
    lemma_zero_iff_no_bits(0u16);
    assert forall|i: int| #[trigger]
        bit_set(b2, i) == (0 <= i < c2 && spec_is_move(b, i) && move_score(b, d, i) == r2) by {
        if 0 <= i < 16 {
            assert(bit_set(best, i) == (0 <= i < cur && spec_is_move(b, i) && move_score(b, d, i)
                == rating));
            if cur <= i < idx {
                assert(!spec_is_move(b, i));
            }
            if sc < rating {
                assert(b2 == best && r2 == rating && c2 == idx + 1);
            } else if sc == rating {
                assert(b2 == best | (1u16 << idx as u16) && r2 == rating && c2 == idx + 1);
                lemma_bit_or(best, idx as u16, i as u16);
                assert(bit_set(b2, i) == (i == idx || bit_set(best, i)));
            } else {
                assert(b2 == 0u16 | (1u16 << idx as u16) && r2 == sc && c2 == idx + 1);
                lemma_bit_or(0u16, idx as u16, i as u16);
                assert(!bit_set(0u16, i));
                assert(bit_set(b2, i) == (i == idx));
                if i < cur && spec_is_move(b, i) {
                    assert(move_score(b, d, i) <= rating);
                }
            }
        }
    }
}

/// A consistent search with no move left to examine has as best moves exactly the legal
/// moves whose score no other legal move beats.
proof fn lemma_done_best(b: Board, d: int, moves: u16, cur: int, rating: int, best: u16)
    requires
        run_inv(b, d, moves, cur, rating, best),
        cur >= 16 || spec_next_set_bit(moves, cur) is None,
    ensures
        forall|i: int| #[trigger]
            bit_set(best, i) <==> (spec_is_move(b, i) && forall|j: int|
                spec_is_move(b, j) ==> move_score(b, d, j) <= move_score(b, d, i)),
{
    lemma_next_set_bit(moves, cur);
    assert forall|j: int| cur <= j < 16 implies !spec_is_move(b, j) by {
        assert(!bit_set(moves, j));
    }
    lemma_fold_scores_skip(b, d, cur as nat, 16);
    lemma_fold_scores_ge(b, d, 16);
    assert forall|i: int| #[trigger]
        bit_set(best, i) <==> (spec_is_move(b, i) && forall|j: int|
            spec_is_move(b, j) ==> move_score(b, d, j) <= move_score(b, d, i)) by {
        if spec_is_move(b, i) {
            assert(0 <= i < 16);
            lemma_fold_scores_attained(b, d, 16);
            let j0 = choose|j: int|
                0 <= j < 16 && spec_is_move(b, j) && move_score(b, d, j) == fold_scores(b, d, 16);
            if forall|j: int| spec_is_move(b, j) ==> move_score(b, d, j) <= move_score(b, d, i) {
                assert(move_score(b, d, j0) <= move_score(b, d, i));
            }
            if bit_set(best, i) {
                assert forall|j: int| spec_is_move(b, j) implies move_score(b, d, j)
                    <= move_score(b, d, i) by {
                    assert(0 <= j < 16);
                }
            }
        }
    }
}


/// When a search begun with `new` has no move left to examine, its best moves are
/// exactly the legal moves whose score no other legal move beats.
pub proof fn lemma_search_finds_best_moves(s: BestMoveSearch)
    requires
        s.search_inv(),
        s.search_done(),
    ensures
        forall|i: int| #[trigger]
            bit_set(s.search_best(), i) <==> (spec_is_move(s.search_board(), i) && forall|j: int|
                spec_is_move(s.search_board(), j) ==> move_score(
                    s.search_board(),
                    s.search_depth(),
                    j,
                ) <= move_score(s.search_board(), s.search_depth(), i)),
{
    lemma_done_best(
        s.search_board(),
        s.search_depth(),
        s.search_moves(),
        s.search_index(),
        s.search_rating(),
        s.search_best(),
    );
}

proof fn lemma_or_bit_split(x: u16, o: u16, k: u16)
    by (bit_vector)
    ensures
        ((x | o) >> k) & 1u16 == 1u16 <==> ((x >> k) & 1u16 == 1u16 || (o >> k) & 1u16 == 1u16),
{
}

/// A position is in progress exactly when the side to move has a legal move; a won
/// position has none.
pub proof fn lemma_in_progress_iff_has_move(b: Board)
    ensures
        (spec_calc_status(b) == BoardStatus::InProgress) <==> spec_has_move(b),
        spec_win_position(b) ==> !spec_has_move(b),
{
}

/// After a move on an empty square, that square holds the side that moved, every other
/// square is as before, and the turn has passed to the other side.
pub proof fn lemma_move_then_get_square(b: Board, i: int)
    requires
        0 <= i < 16,
        !bit_set(filled(b), i),
    ensures
        spec_get_square(b.after_move(i), i) == Some(b.mover()),
        forall|j: int| j != i ==> spec_get_square(b.after_move(i), j) == spec_get_square(b, j),
        b.after_move(i).mover() == other_side(b.mover()),
{
    let x = b.pieces_of(Side::X);
    let o = b.pieces_of(Side::O);
    let m: u16 = 1u16 << i as u16;
    lemma_or_bit_split(x, o, i as u16);
    lemma_bit_or(x, i as u16, i as u16);
    lemma_bit_or(o, i as u16, i as u16);
    assert forall|j: int| j != i implies spec_get_square(b.after_move(i), j) == spec_get_square(
        b,
        j,
    ) by {
        if 0 <= j < 16 {
            lemma_bit_or(x, i as u16, j as u16);
            lemma_bit_or(o, i as u16, j as u16);
        }
    }
}

/// The number of pieces side `s` has on the board.
pub open spec fn piece_count(b: Board, s: Side) -> nat {
    count_set(b.pieces_of(s), 16)
}

/// The number of moves played to reach the board: all pieces on it.
pub open spec fn moves_made(b: Board) -> nat {
    piece_count(b, Side::X) + piece_count(b, Side::O)
}

/// A position of alternate play from the empty board: no square holds both sides, and X
/// has as many pieces as O when X is to move, one more when O is to move.
pub open spec fn balanced(b: Board) -> bool {
    &&& b.pieces_of(Side::X) & b.pieces_of(Side::O) == 0
    &&& b.mover() == Side::X ==> piece_count(b, Side::X) == piece_count(b, Side::O)
    &&& b.mover() == Side::O ==> piece_count(b, Side::X) == piece_count(b, Side::O) + 1
}

/// The board after the moves `moves` are played in turn from `b`.
pub open spec fn play(b: Board, moves: Seq<int>) -> Board
    decreases moves.len(),
{
    if moves.len() == 0 {
        b
    } else {
        play(b, moves.drop_last()).after_move(moves.last())
    }
}

proof fn lemma_count_set_zero(n: nat)
    requires
        n <= 16,
    ensures
        count_set(0u16, n) == 0,
    decreases n,
{
    if n > 0 {
        lemma_count_set_zero((n - 1) as nat);
        let j: u16 = (n - 1) as u16;
        assert((0u16 >> j) & 1u16 == 0u16) by (bit_vector);
    }
}

proof fn lemma_count_set_add_bit(x: u16, i: int, n: nat)
    requires
        0 <= i < 16,
        !bit_set(x, i),
        n <= 16,
    ensures
        count_set(x | (1u16 << i as u16), n) == count_set(x, n) + if i < n {
            1nat
        } else {
            0nat
        },
    decreases n,
{
    if n > 0 {
        lemma_count_set_add_bit(x, i, (n - 1) as nat);
        lemma_bit_or(x, i as u16, (n - 1) as u16);
    }
}

proof fn lemma_disjoint_after_bit(x: u16, o: u16, i: u16)
    by (bit_vector)
    requires
        i < 16,
        x & o == 0,
        ((x | o) >> i) & 1u16 != 1u16,
    ensures
        (x | (1u16 << i)) & o == 0,
        x & (o | (1u16 << i)) == 0,
        (x >> i) & 1u16 != 1u16,
        (o >> i) & 1u16 != 1u16,
{
}

/// A move on an empty square keeps a position of alternate play one: the side that moved
/// has one piece more, and one more move has been played.
pub proof fn lemma_move_keeps_balance(b: Board, i: int)
    requires
        balanced(b),
        0 <= i < 16,
        !bit_set(filled(b), i),
    ensures
        balanced(b.after_move(i)),
        moves_made(b.after_move(i)) == moves_made(b) + 1,
        piece_count(b.after_move(i), b.mover()) == piece_count(b, b.mover()) + 1,
        piece_count(b.after_move(i), other_side(b.mover())) == piece_count(
            b,
            other_side(b.mover()),
        ),
{
    let x = b.pieces_of(Side::X);
    let o = b.pieces_of(Side::O);
    lemma_disjoint_after_bit(x, o, i as u16);
    lemma_count_set_add_bit(x, i, 16);
    lemma_count_set_add_bit(o, i, 16);
}

/// In a position of alternate play X is to move exactly after an even number of moves, and
/// of `n` moves X has played (n + 1) / 2 and O n / 2.
pub proof fn lemma_balanced_counts(b: Board)
    requires
        balanced(b),
    ensures
        (b.mover() == Side::X) == (moves_made(b) % 2 == 0),
        piece_count(b, Side::X) == (moves_made(b) + 1) / 2,
        piece_count(b, Side::O) == moves_made(b) / 2,
{
}

/// Playing distinct squares below 9 in turn from the empty board with X to move, X is to
/// move again exactly after an even number of moves, X has played (n + 1) / 2 of the n
/// moves and O n / 2, and no square holds both sides.
pub proof fn lemma_alternate_play(b: Board, moves: Seq<int>)
    requires
        b.pieces_of(Side::X) == 0,
        b.pieces_of(Side::O) == 0,
        b.mover() == Side::X,
        forall|k: int| 0 <= k < moves.len() ==> 0 <= #[trigger] moves[k] < 9,
        forall|k: int, l: int| 0 <= k < l < moves.len() ==> moves[k] != moves[l],
    ensures
        (play(b, moves).mover() == Side::X) == (moves.len() % 2 == 0),
        piece_count(play(b, moves), Side::X) == (moves.len() + 1) / 2,
        piece_count(play(b, moves), Side::O) == moves.len() / 2,
        play(b, moves).pieces_of(Side::X) & play(b, moves).pieces_of(Side::O) == 0,
    decreases moves.len(),
{
    lemma_count_set_zero(16);
    assert(0u16 & 0u16 == 0u16) by (bit_vector);
    lemma_play_balanced(b, moves);
    lemma_balanced_counts(play(b, moves));
}

proof fn lemma_play_balanced(b: Board, moves: Seq<int>)
    requires
        b.pieces_of(Side::X) == 0,
        b.pieces_of(Side::O) == 0,
        b.mover() == Side::X,
        forall|k: int| 0 <= k < moves.len() ==> 0 <= #[trigger] moves[k] < 9,
        forall|k: int, l: int| 0 <= k < l < moves.len() ==> moves[k] != moves[l],
    ensures
        balanced(play(b, moves)),
        moves_made(play(b, moves)) == moves.len(),
        forall|j: int| #[trigger] bit_set(filled(play(b, moves)), j) ==> moves.contains(j),
    decreases moves.len(),
{
    if moves.len() == 0 {
        lemma_count_set_zero(16);
        assert(0u16 & 0u16 == 0u16) by (bit_vector);
        assert forall|j: int| #[trigger] bit_set(filled(b), j) implies moves.contains(j) by {
            let jj = j as u16;
            assert(((0u16 | 0u16) >> jj) & 1u16 != 1u16) by (bit_vector);
        }
    } else {
        let prefix = moves.drop_last();
        let i = moves.last();
        lemma_play_balanced(b, prefix);
        let p = play(b, prefix);
        assert(!bit_set(filled(p), i)) by {
            if bit_set(filled(p), i) {
                let k = choose|k: int| 0 <= k < prefix.len() && prefix[k] == i;
                assert(moves[k] == moves[moves.len() - 1]);
            }
        }
        lemma_move_keeps_balance(p, i);
        assert forall|j: int| #[trigger] bit_set(filled(p.after_move(i)), j) implies moves.contains(j) by {
            let x = p.pieces_of(Side::X);
            let o = p.pieces_of(Side::O);
            lemma_or_bit_split(x, o, j as u16);
            lemma_bit_or(x, i as u16, j as u16);
            lemma_bit_or(o, i as u16, j as u16);
            if j == i {
                assert(moves[moves.len() - 1] == j);
            } else {
                if p.mover() == Side::X {
                    lemma_or_bit_split(x | (1u16 << i as u16), o, j as u16);
                } else {
                    lemma_or_bit_split(x, o | (1u16 << i as u16), j as u16);
                }
                assert(bit_set(filled(p), j));
                let k = choose|k: int| 0 <= k < prefix.len() && prefix[k] == j;
                assert(moves[k] == j);
            }
        }
    }
}

/// The search state (index, rating, best moves, finished) a search of `b` at depth `d` over
/// `moves` reaches from its start (as `BestMoveSearch::new` begins it) in at most `n` steps.
pub open spec fn search_from_start(b: Board, d: int, moves: u16, n: nat) -> (int, int, u16, bool) {
    search_run(b, d, moves, 0, i32::MIN as int, 0u16, n)
}

/// The search state after calls of `step` with the chunk sizes `chunks`, in order, from the
/// state (`cur`, `rating`, `best`); the flag is what the last call returned.
pub open spec fn search_calls(
    b: Board,
    d: int,
    moves: u16,
    cur: int,
    rating: int,
    best: u16,
    chunks: Seq<nat>,
) -> (int, int, u16, bool)
    decreases chunks.len(),
{
    if chunks.len() == 0 {
        (cur, rating, best, false)
    } else {
        let s = search_calls(b, d, moves, cur, rating, best, chunks.drop_last());
        search_run(b, d, moves, s.0, s.1, s.2, chunks.last())
    }
}

proof fn lemma_run_keeps_inv(
    b: Board,
    d: int,
    moves: u16,
    cur: int,
    rating: int,
    best: u16,
    n: nat,
)
    requires
        run_inv(b, d, moves, cur, rating, best),
    ensures
        ({
            let (c2, r2, b2, done) = search_run(b, d, moves, cur, rating, best, n);
            &&& run_inv(b, d, moves, c2, r2, b2)
            &&& cur <= c2
        }),
    decreases n,
{
    if n > 0 && cur < 16 {
        lemma_next_set_bit(moves, cur);
        match spec_next_set_bit(moves, cur) {
            None => {},
            Some(idx) => {
                lemma_search_step_inv(b, d, moves, cur, rating, best, idx);
                let (c2, r2, b2) = search_step(b, d, rating, best, idx);
                lemma_run_keeps_inv(b, d, moves, c2, r2, b2, (n - 1) as nat);
            },
        }
    }
}

/// A run that reports itself finished has no move left to examine.
proof fn lemma_run_done(b: Board, d: int, moves: u16, cur: int, rating: int, best: u16, n: nat)
    ensures
        ({
            let (c2, r2, b2, done) = search_run(b, d, moves, cur, rating, best, n);
            done ==> c2 >= 16 || spec_next_set_bit(moves, c2) is None
        }),
    decreases n,
{
    if n > 0 && cur < 16 {
        match spec_next_set_bit(moves, cur) {
            None => {},
            Some(idx) => {
                let (c2, r2, b2) = search_step(b, d, rating, best, idx);
                lemma_run_done(b, d, moves, c2, r2, b2, (n - 1) as nat);
            },
        }
    }
}

/// Whatever the chunk sizes, a search begun with `new` keeps a consistent state.
proof fn lemma_calls_keep_inv(b: Board, d: int, moves: u16, chunks: Seq<nat>)
    requires
        forall|i: int| #[trigger] bit_set(moves, i) == spec_is_move(b, i),
    ensures
        ({
            let (c, r, best, done) = search_calls(b, d, moves, 0, i32::MIN as int, 0u16, chunks);
            &&& run_inv(b, d, moves, c, r, best)
            &&& done ==> c >= 16 || spec_next_set_bit(moves, c) is None
        }),
    decreases chunks.len(),
{
    if chunks.len() == 0 {
        lemma_zero_iff_no_bits(0u16);
    } else {
        lemma_calls_keep_inv(b, d, moves, chunks.drop_last());
        let s = search_calls(b, d, moves, 0, i32::MIN as int, 0u16, chunks.drop_last());
        lemma_run_keeps_inv(b, d, moves, s.0, s.1, s.2, chunks.last());
        lemma_run_done(b, d, moves, s.0, s.1, s.2, chunks.last());
    }
}

/// A search begun with `new` and run for any number of steps holds as best moves only
/// legal moves already examined, holds some exactly when a legal move was examined, and
/// once it reports itself finished holds exactly the legal moves whose score no other
/// legal move beats.
pub proof fn lemma_search_from_start(b: Board, d: int, moves: u16, n: nat)
    requires
        forall|i: int| #[trigger] bit_set(moves, i) == spec_is_move(b, i),
    ensures
        ({
            let (c, r, best, done) = search_from_start(b, d, moves, n);
            &&& forall|i: int| #[trigger] bit_set(best, i) ==> spec_is_move(b, i) && i < c
            &&& (best == 0) == (forall|i: int| 0 <= i < c ==> !spec_is_move(b, i))
            &&& done ==> ((best == 0) == (forall|i: int| !spec_is_move(b, i)))
            &&& done ==> forall|i: int| #[trigger]
                bit_set(best, i) <==> (spec_is_move(b, i) && forall|j: int|
                    spec_is_move(b, j) ==> move_score(b, d, j) <= move_score(b, d, i))
        }),
{
    lemma_zero_iff_no_bits(0u16);
    lemma_run_keeps_inv(b, d, moves, 0, i32::MIN as int, 0u16, n);
    lemma_run_done(b, d, moves, 0, i32::MIN as int, 0u16, n);
    let (c, r, best, done) = search_from_start(b, d, moves, n);
    lemma_zero_iff_no_bits(best);
    if exists|i: int| 0 <= i < c && spec_is_move(b, i) {
        lemma_fold_scores_attained(b, d, c as nat);
        let j = choose|j: int|
            0 <= j < c && spec_is_move(b, j) && move_score(b, d, j) == fold_scores(b, d, c as nat);
        assert(bit_set(best, j));
    }
    if done {
        lemma_done_best(b, d, moves, c, r, best);
        if c < 16 {
            lemma_next_set_bit(moves, c);
        }
        assert forall|i: int| c <= i implies !spec_is_move(b, i) by {
            assert(!bit_set(moves, i));
        }
    }
}

/// Two searches of the same position begun with `new` and run with any chunk sizes, both
/// with a last call that reported the search finished, hold the same best moves.
pub proof fn lemma_any_split_same_best(
    b: Board,
    d: int,
    moves: u16,
    chunks1: Seq<nat>,
    chunks2: Seq<nat>,
)
    requires
        forall|i: int| #[trigger] bit_set(moves, i) == spec_is_move(b, i),
        search_calls(b, d, moves, 0, i32::MIN as int, 0u16, chunks1).3,
        search_calls(b, d, moves, 0, i32::MIN as int, 0u16, chunks2).3,
    ensures
        search_calls(b, d, moves, 0, i32::MIN as int, 0u16, chunks1).2 == search_calls(
            b,
            d,
            moves,
            0,
            i32::MIN as int,
            0u16,
            chunks2,
        ).2,
{
    lemma_calls_keep_inv(b, d, moves, chunks1);
    lemma_calls_keep_inv(b, d, moves, chunks2);
    let s1 = search_calls(b, d, moves, 0, i32::MIN as int, 0u16, chunks1);
    let s2 = search_calls(b, d, moves, 0, i32::MIN as int, 0u16, chunks2);
    lemma_done_best(b, d, moves, s1.0, s1.1, s1.2);
    lemma_done_best(b, d, moves, s2.0, s2.1, s2.2);
    assert forall|i: int| 0 <= i < 16 implies bit_set(s1.2, i) == bit_set(s2.2, i) by {}
    lemma_same_bits_equal(s1.2, s2.2);
}

proof fn lemma_same_bits_equal(a: u16, c: u16)
    requires
        forall|i: int| 0 <= i < 16 ==> bit_set(a, i) == bit_set(c, i),
    ensures
        a == c,
{
    let x = a ^ c;
    assert forall|i: int| 0 <= i < 16 implies !bit_set(x, i) by {
        let k = i as u16;
        assert(bit_set(a, i) == bit_set(c, i));
        assert(((a >> k) & 1u16 == 1u16) == ((c >> k) & 1u16 == 1u16) ==> ((a ^ c) >> k) & 1u16
            != 1u16) by (bit_vector);
    }
    lemma_zero_iff_no_bits(x);
    assert(a ^ c == 0u16 ==> a == c) by (bit_vector);
}

/// Running a search `k1` steps and then `k2` more reaches the state of running it
/// `k1 + k2` steps at once; so does the finished flag when the second run has a step.
pub proof fn lemma_search_chunks_compose(
    b: Board,
    d: int,
    moves: u16,
    cur: int,
    rating: int,
    best: u16,
    k1: nat,
    k2: nat,
)
    ensures
        ({
            let first = search_run(b, d, moves, cur, rating, best, k1);
            let whole = search_run(b, d, moves, cur, rating, best, k1 + k2);
            let rest = search_run(b, d, moves, first.0, first.1, first.2, k2);
            &&& (whole.0, whole.1, whole.2) == (rest.0, rest.1, rest.2)
            &&& k2 > 0 ==> whole.3 == rest.3
        }),
    decreases k1,
{
    if k1 > 0 && cur < 16 {
        match spec_next_set_bit(moves, cur) {
            None => {},
            Some(idx) => {
                let (c2, r2, b2) = search_step(b, d, rating, best, idx);
                lemma_search_chunks_compose(b, d, moves, c2, r2, b2, (k1 - 1) as nat, k2);
                assert((k1 + k2 - 1) as nat == ((k1 - 1) as nat + k2) as nat);
            },
        }
    }
}

/// Once a run reports the search finished, further runs with a step report it finished
/// again and change nothing.
pub proof fn lemma_finished_search_stays(
    b: Board,
    d: int,
    moves: u16,
    cur: int,
    rating: int,
    best: u16,
    k1: nat,
    k2: nat,
)
    requires
        search_run(b, d, moves, cur, rating, best, k1).3,
        k2 > 0,
    ensures
        ({
            let s = search_run(b, d, moves, cur, rating, best, k1);
            search_run(b, d, moves, s.0, s.1, s.2, k2) == (s.0, s.1, s.2, true)
        }),
{
    lemma_run_done(b, d, moves, cur, rating, best, k1);
}

proof fn lemma_count_set_gap(x: u16, a: nat, m: nat)
    requires
        a <= m <= 16,
        forall|j: int| a <= j < m ==> !bit_set(x, j),
    ensures
        count_set(x, m) == count_set(x, a),
    decreases m,
{
    if m > a {
        lemma_count_set_gap(x, a, (m - 1) as nat);
    }
}

proof fn lemma_count_set_mono(x: u16, a: nat, m: nat)
    requires
        a <= m,
    ensures
        count_set(x, a) <= count_set(x, m),
    decreases m,
{
    if m > a {
        lemma_count_set_mono(x, a, (m - 1) as nat);
    }
}

/// A run from index `cur` with more steps than moves left to examine finishes.
proof fn lemma_search_ends(b: Board, d: int, moves: u16, cur: int, rating: int, best: u16, n: nat)
    requires
        0 <= cur <= 16,
        n >= count_set(moves, 16) - count_set(moves, cur as nat) + 1,
    ensures
        search_run(b, d, moves, cur, rating, best, n).3,
    decreases n,
{
    lemma_count_set_mono(moves, cur as nat, 16);
    if cur < 16 {
        lemma_next_set_bit(moves, cur);
        match spec_next_set_bit(moves, cur) {
            None => {},
            Some(idx) => {
                lemma_count_set_gap(moves, cur as nat, idx as nat);
                assert(count_set(moves, (idx + 1) as nat) == count_set(moves, idx as nat) + 1);
                let (c2, r2, b2) = search_step(b, d, rating, best, idx);
                lemma_search_ends(b, d, moves, c2, r2, b2, (n - 1) as nat);
            },
        }
    }
}

/// Calls that all take `k` steps reach the state of one run of `k` times as many steps,
/// with the same finished flag.
proof fn lemma_equal_calls(
    b: Board,
    d: int,
    moves: u16,
    cur: int,
    rating: int,
    best: u16,
    k: nat,
    calls: nat,
)
    requires
        k > 0,
    ensures
        ({
            let c = search_calls(
                b,
                d,
                moves,
                cur,
                rating,
                best,
                Seq::new(calls, |i: int| k),
            );
            let w = search_run(b, d, moves, cur, rating, best, k * calls);
            &&& (c.0, c.1, c.2) == (w.0, w.1, w.2)
            &&& calls > 0 ==> c.3 == w.3
        }),
    decreases calls,
{
    if calls > 0 {
        let chunks = Seq::new(calls, |i: int| k);
        let before: nat = (calls - 1) as nat;
        assert(chunks.drop_last() == Seq::new(before, |i: int| k));
        assert(chunks.last() == k);
        lemma_equal_calls(b, d, moves, cur, rating, best, k, before);
        let k1: nat = k * before;
        assert(k * calls == k1 + k) by (nonlinear_arith)
            requires
                calls == before + 1,
                k1 == k * before,
        ;
        lemma_search_chunks_compose(b, d, moves, cur, rating, best, k1, k);
    } else {
        assert(k * calls == 0) by (nonlinear_arith)
            requires
                calls == 0,
        ;
    }
}

/// A search begun with `new` over `m` legal moves, stepped with chunks of `k >= 1`, has
/// reported itself finished after ceil(m / k) + 1 calls.
pub proof fn lemma_search_finishes(b: Board, d: int, moves: u16, k: nat, calls: nat)
    requires
        k >= 1,
        calls >= (count_set(moves, 16) + k - 1) / (k as int) + 1,
    ensures
        search_calls(b, d, moves, 0, i32::MIN as int, 0u16, Seq::new(calls, |i: int| k)).3,
{
    let m = count_set(moves, 16);
    let q = (m + k - 1) / (k as int);
    assert(k * q >= m) by (nonlinear_arith)
        requires
            k >= 1,
            q == (m + k - 1) / (k as int),
            m >= 0,
    ;
    assert(k * calls >= m + 1) by (nonlinear_arith)
        requires
            k >= 1,
            calls >= q + 1,
            k * q >= m,
    ;
    lemma_equal_calls(b, d, moves, 0, i32::MIN as int, 0u16, k, calls);
    lemma_search_ends(b, d, moves, 0, i32::MIN as int, 0u16, k * calls);
}

/// What a consistent search state says of its best moves: legal moves already examined,
/// some exactly when a legal move was examined; and with no move left to examine, exactly
/// the unbeaten legal moves, none exactly when there is no legal move.
proof fn lemma_inv_facts(b: Board, d: int, moves: u16, cur: int, rating: int, best: u16)
    requires
        run_inv(b, d, moves, cur, rating, best),
    ensures
        forall|i: int| #[trigger] bit_set(best, i) ==> spec_is_move(b, i) && i < cur,
        (best == 0) == (forall|i: int| 0 <= i < cur ==> !spec_is_move(b, i)),
        cur >= 16 || spec_next_set_bit(moves, cur) is None ==> ((best == 0) == (forall|i: int|
            !spec_is_move(b, i))),
        cur >= 16 || spec_next_set_bit(moves, cur) is None ==> forall|i: int| #[trigger]
            bit_set(best, i) <==> (spec_is_move(b, i) && forall|j: int|
                spec_is_move(b, j) ==> move_score(b, d, j) <= move_score(b, d, i)),
{
    lemma_zero_iff_no_bits(best);
    if exists|i: int| 0 <= i < cur && spec_is_move(b, i) {
        lemma_fold_scores_attained(b, d, cur as nat);
        let j = choose|j: int|
            0 <= j < cur && spec_is_move(b, j) && move_score(b, d, j) == fold_scores(b, d, cur as nat);
        assert(bit_set(best, j));
    }
    if cur >= 16 || spec_next_set_bit(moves, cur) is None {
        lemma_done_best(b, d, moves, cur, rating, best);
        if cur < 16 {
            lemma_next_set_bit(moves, cur);
        }
        assert forall|i: int| cur <= i implies !spec_is_move(b, i) by {
            assert(!bit_set(moves, i));
        }
    }
}

/// A position is worth 0 to the side to move when it is drawn or still open, 1 when that
/// side has won and -1 when the other side has; a drawn position, with no move left, is
/// worth 0 at every depth of the search.
pub proof fn lemma_position_values(b: Board, d: int)
    ensures
        spec_calc_status(b) == BoardStatus::Draw ==> eval(b) == 0 && negamax(b, d) == 0,
        spec_calc_status(b) == BoardStatus::InProgress ==> eval(b) == 0,
        spec_calc_status(b) matches BoardStatus::Win(info) ==> eval(b) == (if info.side
            == b.mover() {
            1int
        } else {
            -1int
        }),
        -1 <= eval(b) <= 1,
{
    lemma_in_progress_iff_has_move(b);
}

/// Searched at least one ply deep, a move that leads to a draw scores 0 and a move after
/// which the opponent wins at once scores -1; so once a search begun with `new` is finished,
/// such a losing move is never among the best moves while a drawing move is legal.
pub proof fn lemma_draw_beats_immediate_loss(
    b: Board,
    d: int,
    i: int,
    j: int,
    k: int,
    moves: u16,
    n: nat,
)
    requires
        d >= 1,
        spec_is_move(b, i),
        spec_is_move(b, j),
        spec_calc_status(b.after_move(j)) == BoardStatus::Draw,
        spec_is_move(b.after_move(i), k),
        spec_calc_status(b.after_move(i).after_move(k)) matches BoardStatus::Win(info)
            && info.side == other_side(b.mover()),
    ensures
        move_score(b, d, j) == 0,
        move_score(b, d, i) == -1,
        (forall|m: int| #[trigger] bit_set(moves, m) == spec_is_move(b, m)) && search_from_start(
            b,
            d,
            moves,
            n,
        ).3 ==> !bit_set(search_from_start(b, d, moves, n).2, i),
{
    let aj = b.after_move(j);
    lemma_in_progress_iff_has_move(aj);
    let ai = b.after_move(i);
    let c = ai.after_move(k);
    assert(spec_win_position(c));
    lemma_in_progress_iff_has_move(c);
    assert(c.mover() == b.mover()) by {
        assert(ai.mover() == other_side(b.mover()));
    }
    assert(negamax(c, d - 1) == -1);
    assert(spec_has_move(ai));
    lemma_fold_scores_ge(ai, d - 1, 16);
    assert(0 <= k < 16);
    assert(move_score(ai, d - 1, k) == 1);
    lemma_negamax_range(ai, d);
    assert(negamax(ai, d) == 1);
    if (forall|m: int| #[trigger] bit_set(moves, m) == spec_is_move(b, m)) && search_from_start(
        b,
        d,
        moves,
        n,
    ).3 {
        lemma_search_from_start(b, d, moves, n);
        let best = search_from_start(b, d, moves, n).2;
        if bit_set(best, i) {
            assert(move_score(b, d, j) <= move_score(b, d, i));
        }
    }
}

} // verus!
