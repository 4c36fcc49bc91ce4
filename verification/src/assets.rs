//! Names of the images that the game logic hands to the renderer.
use vstd::prelude::*;

verus! {

/// An image of the game's asset set, named by what it shows.
#[derive(Clone, Copy, Debug, PartialEq, Eq, Structural)]
pub enum StaticImage {
    TicTacToeCross,
    TicTacToeCircle,
    MgTicTacToeIcon,
    MgDogeIcon,
    MgLinkFourIcon,
    MgWeightLiftIcon,
    Handheld,
    Branch,
    Brick,
}

} // verus!
