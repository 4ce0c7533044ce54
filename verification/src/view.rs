//! What participants are shown.

use vstd::prelude::*;
use crate::player::Player;

verus! {

/// The board as every participant may see it. The game hides nothing from
/// either side, so one view serves both.
#[derive(Clone, Copy, Debug, PartialEq, Eq)]
pub struct GameView<S> {
    pub state: S,
}

/// The view of a game against the computer: the board, the side the human
/// plays, and the move played last, if any.
#[derive(Clone, Copy, Debug, PartialEq, Eq)]
pub struct SinglePlayerView<S, M> {
    pub player: Player,
    pub game: GameView<S>,
    pub last_move: Option<M>,
}

} // verus!
