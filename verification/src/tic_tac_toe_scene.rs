//! The tic-tac-toe mini game screen: the player's cursor and moves, the opponent's search
//! and moves, and the end of the game. Times are in milliseconds.
use vstd::prelude::*;

use crate::bit_array::{bit_set, lemma_next_set_bit, lemma_zero_iff_no_bits};
use crate::mini_games::{opponent_move, tic_tac_toe_cursor, tic_tac_toe_reward};
use crate::rng::{rng_bool, rng_choice, rng_i32, rng_u64};
use crate::tic_tac_toe::{
    other_side, spec_calc_status, spec_has_move, spec_is_move, BestMoveSearch, Board,
    BoardStatus, Side, Square, TicTacToeGame, TicTacToeOpponent,
};

verus! {

/// How the two pets on the screen look.
#[derive(Clone, Copy, Debug, PartialEq, Eq, Structural)]
pub enum PetAnimation {
    Normal,
    Happy,
    Sad,
}

/// Whether the game is being played or is over.
#[derive(Clone, Copy, Debug, PartialEq, Eq, Structural)]
pub enum MgState {
    Playing,
    PostGame,
}

/// What a tick asks of the screen: new looks for the player's and the opponent's pet, and,
/// when the screen is done, whether the player won and the coins won.
#[derive(Clone, Copy, Debug)]
pub struct MgTickOutput {
    pub animations: Option<(PetAnimation, PetAnimation)>,
    pub fanfare: Option<(bool, i32)>,
}

/// Time between two flashes of the cursor.
pub const FLASH_MS: u64 = 300;

/// Time the finished game stays on the screen.
pub const POST_GAME_MS: u64 = 4000;

/// Depth of the opponent's search.
pub const SEARCH_DEPTH: i32 = 5;

/// Looks while the game goes on: the pet whose turn it is looks happy.
pub open spec fn turn_animations(mover: Side, player: Side) -> (PetAnimation, PetAnimation) {
    if mover == player {
        (PetAnimation::Happy, PetAnimation::Normal)
    } else {
        (PetAnimation::Normal, PetAnimation::Happy)
    }
}

/// Looks once the game is over: the winner happy and the loser sad, both sad on a draw.
pub open spec fn end_animations(status: BoardStatus, player: Side) -> (PetAnimation, PetAnimation) {
    match status {
        BoardStatus::Win(win) => if win.side == player {
            (PetAnimation::Happy, PetAnimation::Sad)
        } else {
            (PetAnimation::Sad, PetAnimation::Happy)
        },
        _ => (PetAnimation::Sad, PetAnimation::Sad),
    }
}

/// The flash timer after `delta` more milliseconds: past `FLASH_MS` the flash flips and
/// the timer starts again.
pub open spec fn flash_after(duration: u64, state: bool, delta: u64) -> (u64, bool) {
    if duration + delta > FLASH_MS {
        (0, !state)
    } else {
        ((duration + delta) as u64, state)
    }
}

/// The tic-tac-toe screen.
pub struct MgTicTacToeScene {
    game: TicTacToeGame,
    selected: i8,
    flash_state: bool,
    flash_duration: u64,
    player_side: Side,
    thinking_end: u64,
    state: MgState,
    first_move: bool,
    best_move_search: BestMoveSearch,
    opponent: TicTacToeOpponent,
    post_game_start: u64,
}

impl MgTicTacToeScene {
    /// The screen's own consistency: the cursor is on the board while playing, the flash
    /// timer is short, the board's status is up to date, and during the opponent's turn any
    /// best moves found are those of a search of the current board.
    pub closed spec fn wf(self) -> bool {
        &&& (self.state == MgState::Playing ==> 0 <= self.selected <= 9)
        &&& self.flash_duration <= FLASH_MS
        &&& self.game.game_board().stored_status() == spec_calc_status(self.game.game_board())
        &&& self.best_move_search.search_depth() >= i32::MIN + 9
        &&& ((self.best_move_search.search_moves() == 0 && self.best_move_search.search_best()
            == 0) || self.game.game_board().mover()
            == self.player_side || (self.best_move_search.search_inv()
            && self.best_move_search.search_board() == self.game.game_board()))
    }

    pub closed spec fn board(self) -> Board {
        self.game.game_board()
    }

    pub closed spec fn cursor(self) -> int {
        self.selected as int
    }

    pub closed spec fn flash(self) -> (u64, bool) {
        (self.flash_duration, self.flash_state)
    }

    pub closed spec fn player(self) -> Side {
        self.player_side
    }

    pub closed spec fn thinking_until(self) -> u64 {
        self.thinking_end
    }

    pub closed spec fn screen_state(self) -> MgState {
        self.state
    }

    pub closed spec fn search(self) -> BestMoveSearch {
        self.best_move_search
    }

    pub closed spec fn rival(self) -> TicTacToeOpponent {
        self.opponent
    }

    pub closed spec fn ended_at(self) -> u64 {
        self.post_game_start
    }

    /// A new game against `opponent`; the player plays O until `setup` draws a side.
    pub fn new(opponent: TicTacToeOpponent) -> (r: Self)
        ensures
            r.board().pieces_of(Side::X) == 0,
            r.board().pieces_of(Side::O) == 0,
            r.board().mover() == Side::X,
            r.cursor() == 0,
            r.flash() == (0u64, false),
            r.player() == Side::O,
            r.thinking_until() == 0,
            r.screen_state() == MgState::Playing,
            r.search().search_moves() == 0,
            r.search().search_best() == 0,
            r.rival() == opponent,
            r.wf(),
    {
        let game = TicTacToeGame::new();
        MgTicTacToeScene {
            game,
            selected: 0,
            flash_state: false,
            flash_duration: 0,
            player_side: Side::O,
            thinking_end: 0,
            state: MgState::Playing,
            first_move: false,
            best_move_search: BestMoveSearch::empty(),
            opponent,
            post_game_start: 0,
        }
    }

    /// Draws the player's side and the opponent among `opponents`, and gives the looks for
    /// the side to move and a random start (below 2000 ms) for the opponent's animation.
    pub fn setup(&mut self, rng: &mut fastrand::Rng, opponents: &[TicTacToeOpponent]) -> (r: (
        PetAnimation,
        PetAnimation,
        u64,
    ))
        requires
            old(self).wf(),
            opponents.len() > 0,
        ensures
            old(self).search().search_moves() == 0 && old(self).search().search_best() == 0
                ==> final(self).wf(),
            opponents@.contains(final(self).rival()),
            final(self).board() == old(self).board(),
            final(self).screen_state() == old(self).screen_state(),
            (r.0, r.1) == turn_animations(final(self).board().mover(), final(self).player()),
            r.2 < 2000,
    {
        self.player_side = if rng_bool(rng) {
            Side::O
        } else {
            Side::X
        };
        self.opponent = rng_choice(rng, opponents).unwrap();
        let looks = self.turn_animations();
        let offset = rng_u64(rng, 0, 2000);
        (looks.0, looks.1, offset)
    }

    fn turn_animations(&self) -> (r: (PetAnimation, PetAnimation))
        ensures
            r == turn_animations(self.board().mover(), self.player()),
    {
        if self.game.board().side_to_move() == self.player_side {
            (PetAnimation::Happy, PetAnimation::Normal)
        } else {
            (PetAnimation::Normal, PetAnimation::Happy)
        }
    }

    /// Advances the flash timer by `delta`.
    fn advance_flash(&mut self, delta: u64)
        requires
            old(self).flash_duration + delta <= u64::MAX,
        ensures
            (final(self).flash_duration, final(self).flash_state) == flash_after(
                old(self).flash_duration,
                old(self).flash_state,
                delta,
            ),
            final(self).flash_duration <= FLASH_MS,
            final(self).game == old(self).game,
            final(self).selected == old(self).selected,
            final(self).player_side == old(self).player_side,
            final(self).thinking_end == old(self).thinking_end,
            final(self).state == old(self).state,
            final(self).best_move_search == old(self).best_move_search,
            final(self).opponent == old(self).opponent,
            final(self).post_game_start == old(self).post_game_start,
            final(self).first_move == old(self).first_move,
    {
        let duration = self.flash_duration + delta;
        if duration > FLASH_MS {
            self.flash_state = !self.flash_state;
            self.flash_duration = 0;
        } else {
            self.flash_duration = duration;
        }
    }

    /// One tick at time `timestamp`, `delta` after the last, with the buttons pressed.
    ///
    /// While the game goes on: on the player's turn the cursor moves (left, then right) and
    /// middle on a free square plays there and starts the opponent's search, which gets
    /// 1000 to 1500 ms to think; on the opponent's turn it searches one more move until its
    /// thinking time is up, then plays. Once the game is over the screen shows the result,
    /// and after `POST_GAME_MS` asks for the fanfare with the reward.
    pub fn tick(
        &mut self,
        left: bool,
        right: bool,
        middle: bool,
        timestamp: u64,
        delta: u64,
        rng: &mut fastrand::Rng,
    ) -> (r: MgTickOutput)
        requires
            old(self).wf(),
            timestamp <= u64::MAX - 1500,
            delta <= u64::MAX - FLASH_MS,
        ensures
            final(self).wf(),
            final(self).player() == old(self).player(),
            final(self).rival() == old(self).rival(),
            ({
                let b = old(self).board();
                let player = old(self).player();
                match old(self).screen_state() {
                    MgState::PostGame => {
                        &&& final(self).board() == b
                        &&& final(self).screen_state() == MgState::PostGame
                        &&& final(self).flash() == flash_after(
                            old(self).flash().0,
                            old(self).flash().1,
                            delta,
                        )
                        &&& r.animations is None
                        &&& r.fanfare == if timestamp >= old(self).ended_at() && timestamp
                            - old(self).ended_at() > POST_GAME_MS {
                            Some(tic_tac_toe_reward_spec(b.stored_status(), player))
                        } else {
                            None
                        }
                    },
                    MgState::Playing => if b.stored_status() != BoardStatus::InProgress {
                        &&& final(self).board() == b
                        &&& final(self).screen_state() == MgState::PostGame
                        &&& final(self).cursor() == -1
                        &&& final(self).ended_at() == timestamp
                        &&& r.animations == Some(end_animations(b.stored_status(), player))
                        &&& r.fanfare is None
                    } else if b.mover() == player {
                        let cursor = cursor_after(old(self).cursor(), left, right);
                        &&& final(self).screen_state() == MgState::Playing
                        &&& final(self).cursor() == cursor
                        &&& final(self).flash() == flash_after(
                            old(self).flash().0,
                            old(self).flash().1,
                            delta,
                        )
                        &&& r.fanfare is None
                        &&& if middle && spec_is_move(b, cursor) {
                            &&& final(self).board() == b.after_move(cursor)
                            &&& timestamp + 1000 <= final(self).thinking_until() < timestamp
                                + 1500
                            &&& final(self).search().search_board() == final(self).board()
                            &&& final(self).search().search_depth() == SEARCH_DEPTH
                            &&& final(self).search().search_index() == 0
                            &&& final(self).search().search_inv()
                            &&& r.animations == Some(
                                turn_animations(final(self).board().mover(), player),
                            )
                        } else {
                            &&& final(self).board() == b
                            &&& r.animations is None
                        }
                    } else if timestamp < old(self).thinking_until() {
                        &&& final(self).board() == b
                        &&& final(self).screen_state() == MgState::Playing
                        &&& final(self).search().search_board() == old(self).search().search_board()
                        &&& (old(self).search().search_inv() ==> final(self).search().search_inv())
                        &&& r == (MgTickOutput { animations: None, fanfare: None })
                    } else {
                        &&& final(self).screen_state() == MgState::Playing
                        &&& exists|i: int|
                            spec_is_move(b, i) && final(self).board() == b.after_move(i)
                        &&& r.animations == Some(
                            turn_animations(final(self).board().mover(), player),
                        )
                        &&& r.fanfare is None
                    },
                }
            }),
    {
        let mut out = MgTickOutput { animations: None, fanfare: None };
        match self.state {
            MgState::Playing => {
                let status = self.game.board().status();
                match status {
                    BoardStatus::InProgress => {
                        if self.game.board().side_to_move() == self.player_side {
                            let moves = self.game.board().possible_moves();
                            let size = self.game.board().size();
                            let selected = tic_tac_toe_cursor(self.selected, left, right, size);
                            self.selected = selected;
                            if moves.get_bit(selected as usize) && middle {
                                self.game.make_move(Square::new(selected as u8));
                                let thinking_time = rng_i32(rng, 1000, 1500);
                                self.best_move_search = BestMoveSearch::new(
                                    *self.game.board(),
                                    SEARCH_DEPTH,
                                );
                                self.thinking_end = timestamp + thinking_time as u64;
                                out.animations = Some(self.turn_animations());
                            }
                            self.advance_flash(delta);
                        } else if timestamp < self.thinking_end {
                            proof {
                                let m = self.best_move_search.search_moves();
                                let c = self.best_move_search.search_index();
                                if m == 0 && c >= 0 {
                                    lemma_zero_iff_no_bits(0u16);
                                    lemma_next_set_bit(m, c);
                                }
                            }
                            self.best_move_search.step(1);
                        } else {
                            let ghost b = self.game.game_board();
                            let possible = self.game.board().possible_moves();
                            proof {
                                assert(spec_has_move(b));
                                let i = choose|i: int| spec_is_move(b, i);
                                assert(bit_set(possible@, i));
                            }
                            let chosen = opponent_move(
                                rng,
                                self.opponent.strength,
                                &possible,
                                self.best_move_search.best_moves(),
                            );
                            match chosen {
                                Some(index) => {
                                    proof {
                                        if !bit_set(possible@, index as int) {
                                            lemma_zero_iff_no_bits(
                                                self.best_move_search.search_best(),
                                            );
                                            assert(bit_set(
                                                self.best_move_search.search_best(),
                                                index as int,
                                            ));
                                            assert(self.best_move_search.search_inv());
                                        }
                                        assert(spec_is_move(b, index as int));
                                    }
                                    self.game.make_move(Square::new(index as u8));
                                },
                                None => {},
                            }
                            out.animations = Some(self.turn_animations());
                        }
                        self.first_move = false;
                    },
                    _ => {
                        self.selected = -1;
                        self.state = MgState::PostGame;
                        self.post_game_start = timestamp;
                        out.animations = Some(
                            match status {
                                BoardStatus::Win(win_info) => {
                                    if win_info.side == self.player_side {
                                        (PetAnimation::Happy, PetAnimation::Sad)
                                    } else {
                                        (PetAnimation::Sad, PetAnimation::Happy)
                                    }
                                },
                                _ => (PetAnimation::Sad, PetAnimation::Sad),
                            },
                        );
                    },
                }
            },
            MgState::PostGame => {
                self.advance_flash(delta);
                if timestamp >= self.post_game_start && timestamp - self.post_game_start
                    > POST_GAME_MS {
                    let status = self.game.board().status();
                    out.fanfare = Some(tic_tac_toe_reward(status, self.player_side));
                }
            },
        }
        out
    }
}

/// The cursor after a tick on the player's turn (see `tic_tac_toe_cursor`).
pub open spec fn cursor_after(selected: int, left: bool, right: bool) -> int {
    let a: int = if left {
        if selected - 1 < 0 {
            9
        } else {
            selected - 1
        }
    } else {
        selected
    };
    if right {
        if a + 1 >= 9 {
            0
        } else {
            a + 1
        }
    } else {
        a
    }
}

/// The reward for a finished game (see `tic_tac_toe_reward`).
pub open spec fn tic_tac_toe_reward_spec(status: BoardStatus, player: Side) -> (bool, i32) {
    match status {
        BoardStatus::Win(win) => if win.side == player {
            (true, 5000i32)
        } else {
            (false, 1000i32)
        },
        _ => (false, 200i32),
    }
}

} // verus!
