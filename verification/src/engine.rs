//! What the rule engine tells a session.
//!
//! The rule engine is a pure function of the board: it names the starting
//! position, and for a position and a move it either gives the position that
//! follows or says why the move is not allowed. A session never looks inside a
//! board; it keeps the one it was given last.

use vstd::prelude::*;
use crate::player::Player;

verus! {

/// A board together with the side that moves next on it. `turn` is `None` once
/// the game has ended.
#[derive(Clone, Copy, Debug, PartialEq, Eq)]
pub struct Position<S> {
    pub state: S,
    pub turn: Option<Player>,
}

/// The rule engine's answer to one move, asked on the session's current board.
#[derive(Clone, Debug, PartialEq, Eq)]
pub enum Verdict<S> {
    /// The move is legal and leads to this position.
    Accepted(Position<S>),
    /// The move is not legal, for this reason.
    Rejected(String),
}

/// A move as it reaches a session from a participant: the payload either did
/// not decode, or it decoded to a move on which the rule engine has ruled.
#[derive(Clone, Debug, PartialEq, Eq)]
pub enum Submission<S, M> {
    /// The payload was not a move; the text says what was wrong with it.
    Malformed(String),
    /// The payload decoded to `game_move`.
    Move { game_move: M, verdict: Verdict<S> },
}

} // verus!
