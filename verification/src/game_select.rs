//! Picking a mini game.
use vstd::prelude::*;

use crate::assets::StaticImage;

verus! {

/// The mini games.
#[derive(Clone, Copy, Debug, PartialEq, Eq, Structural)]
pub enum MiniGame {
    TicTacToe,
    DogeEm,
    LinkFour,
    WeightLift,
}

impl MiniGame {
    /// The icon of the game in the selection screen.
    pub fn image(&self) -> (r: StaticImage)
        ensures
            r == (match *self {
                MiniGame::TicTacToe => StaticImage::MgTicTacToeIcon,
                MiniGame::DogeEm => StaticImage::MgDogeIcon,
                MiniGame::LinkFour => StaticImage::MgLinkFourIcon,
                MiniGame::WeightLift => StaticImage::MgWeightLiftIcon,
            }),
    {
        match self {
            MiniGame::TicTacToe => StaticImage::MgTicTacToeIcon,
            MiniGame::DogeEm => StaticImage::MgDogeIcon,
            MiniGame::LinkFour => StaticImage::MgLinkFourIcon,
            MiniGame::WeightLift => StaticImage::MgWeightLiftIcon,
        }
    }
}

/// The `i`-th game of the selection screen.
pub open spec fn minigame_at(i: int) -> MiniGame {
    if i == 0 {
        MiniGame::TicTacToe
    } else if i == 1 {
        MiniGame::DogeEm
    } else if i == 2 {
        MiniGame::LinkFour
    } else {
        MiniGame::WeightLift
    }
}

/// What a tick of the selection screen asks of the game.
#[derive(Clone, Copy, Debug, PartialEq, Eq, Structural)]
pub enum GameSelectAction {
    /// Nothing.
    Stay,
    /// Go back to the home screen.
    GoHome,
    /// Start this game.
    Start(MiniGame),
}

/// The mini game selection screen: the games offered and the cursor, which is either on
/// a game or, one past the last game, on the way back.
pub struct GameSelectScene {
    active_minigames: Vec<MiniGame>,
    selected: i32,
}

impl GameSelectScene {
    #[verifier::type_invariant]
    spec fn wf(self) -> bool {
        &&& 0 <= self.selected <= self.active_minigames.len()
        &&& self.active_minigames.len() < 1000
    }

    pub closed spec fn games(self) -> Seq<MiniGame> {
        self.active_minigames@
    }

    pub closed spec fn cursor(self) -> int {
        self.selected as int
    }

    /// All four games offered, the cursor on the first.
    pub fn new() -> (r: Self)
        ensures
            r.games().len() == 4,
            forall|i: int| 0 <= i < 4 ==> r.games()[i] == minigame_at(i),
            r.cursor() == 0,
    {
        GameSelectScene {
            active_minigames: vec![
                MiniGame::TicTacToe,
                MiniGame::DogeEm,
                MiniGame::LinkFour,
                MiniGame::WeightLift,
            ],
            selected: 0,
        }
    }

    /// Where the cursor is.
    pub fn selected(&self) -> (r: i32)
        ensures
            r == self.cursor(),
            0 <= r <= self.games().len(),
    {
        proof {
            use_type_invariant(self);
        }
        self.selected
    }

    /// One tick with the buttons pressed: left moves the cursor back (not below the
    /// first game), right moves it on (from the way back to the first game; right wins
    /// over left), middle starts the selected game or goes back.
    pub fn tick(&mut self, left: bool, right: bool, middle: bool) -> (r: GameSelectAction)
        ensures
            final(self).games() == old(self).games(),
            ({
                let change: int = if right {
                    1
                } else if left {
                    -1
                } else {
                    0
                };
                let moved = old(self).cursor() + change;
                let cursor = if moved < 0 {
                    0
                } else {
                    moved % (old(self).games().len() as int + 1)
                };
                &&& final(self).cursor() == cursor
                &&& r == if !middle {
                    GameSelectAction::Stay
                } else if cursor == old(self).games().len() {
                    GameSelectAction::GoHome
                } else {
                    GameSelectAction::Start(old(self).games()[cursor])
                }
            }),
    {
        proof {
            use_type_invariant(&*self);
        }
        let mut change: i32 = 0;
        if left {
            change = -1;
        }
        if right {
            change = 1;
        }
        let len: i32 = self.active_minigames.len() as i32;
        let moved: i32 = self.selected + change;
        self.selected = if moved < 0 {
            0
        } else {
            moved % (len + 1)
        };
        if middle {
            if self.selected == len {
                return GameSelectAction::GoHome;
            }
            return GameSelectAction::Start(self.active_minigames[self.selected as usize]);
        }
        GameSelectAction::Stay
    }
}

} // verus!
