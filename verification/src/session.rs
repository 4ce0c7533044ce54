//! The part that all game modes share: one board, one rule for who may move.

use vstd::prelude::*;
use crate::engine::{Position, Verdict};
use crate::error::MoveError;
use crate::player::Player;
use crate::view::GameView;

verus! {

/// A running game: the current position and the move that led to it.
///
/// The position changes only when a move is accepted or the game is reset.
#[derive(Clone, Copy, Debug, PartialEq, Eq)]
pub struct Session<S, M> {
    pub position: Position<S>,
    pub last_move: Option<M>,
}

impl<S: Copy, M: Copy> Session<S, M> {
    /// Whether a move submitted in the name of `claimed` passes the turn
    /// check. A move submitted in nobody's name always passes.
    pub open spec fn holds_turn(self, claimed: Option<Player>) -> bool {
        claimed is Some ==> claimed == self.position.turn
    }

    /// What `try_move` answers.
    pub open spec fn move_result(self, claimed: Option<Player>, verdict: Verdict<S>) -> Result<
        (),
        MoveError,
    > {
        if !self.holds_turn(claimed) {
            Err(MoveError::NotYourTurn)
        } else {
            match verdict {
                Verdict::Rejected(reason) => Err(MoveError::IllegalMove(reason)),
                Verdict::Accepted(_) => Ok(()),
            }
        }
    }

    /// The session after `try_move`.
    pub open spec fn after_move(
        self,
        game_move: M,
        claimed: Option<Player>,
        verdict: Verdict<S>,
    ) -> Session<S, M> {
        match verdict {
            Verdict::Accepted(next) if self.holds_turn(claimed) => Session {
                position: next,
                last_move: Some(game_move),
            },
            _ => self,
        }
    }

    /// The session after `reset`: a game that has just started at `initial`,
    /// with no move on record.
    pub open spec fn after_reset(self, initial: Position<S>) -> Session<S, M> {
        Session { position: initial, last_move: None }
    }

    /// The view of the current board.
    pub open spec fn view_now(self) -> GameView<S> {
        GameView { state: self.position.state }
    }

    /// Starts a game at the position the rule engine names as the first.
    pub fn new(initial: Position<S>) -> (session: Session<S, M>)
        ensures
            session.position == initial,
            session.last_move is None,
    {
        Session { position: initial, last_move: None }
    }

    /// The side that moves next, or `None` once the game has ended.
    pub fn current_turn(&self) -> (turn: Option<Player>)
        ensures
            turn == self.position.turn,
    {
        self.position.turn
    }

    /// A copy of the current board.
    pub fn snapshot(&self) -> (state: S)
        ensures
            state == self.position.state,
    {
        self.position.state
    }

    /// The current view. It may be asked for at any time.
    pub fn current_view(&self) -> (view: GameView<S>)
        ensures
            view == self.view_now(),
    {
        GameView { state: self.position.state }
    }

    /// Whether `claimed` may move now.
    pub fn is_turn_of(&self, claimed: Option<Player>) -> (ok: bool)
        ensures
            ok == self.holds_turn(claimed),
    {
        match claimed {
            None => true,
            Some(side) => match self.position.turn {
                None => false,
                Some(holder) => side == holder,
            },
        }
    }

    /// Plays `game_move`, on which the rule engine gave `verdict`.
    ///
    /// If the move is submitted in the name of a side that does not hold the
    /// turn, the answer is `NotYourTurn`, whatever the verdict. Otherwise a
    /// rejected move is answered with `IllegalMove` and the engine's reason.
    /// In both cases the session stays as it was. An accepted move replaces
    /// the position and is remembered as the last move; the answer is the
    /// view of the new board, which is to be shown to everyone who watches.
    pub fn try_move(&mut self, game_move: M, claimed: Option<Player>, verdict: Verdict<S>) -> (result:
        Result<GameView<S>, MoveError>)
        ensures
            *final(self) == old(self).after_move(game_move, claimed, verdict),
            match result {
                Ok(view) => {
                    &&& old(self).move_result(claimed, verdict) is Ok
                    &&& view == final(self).view_now()
                },
                Err(e) => old(self).move_result(claimed, verdict) == Err::<(), MoveError>(e),
            },
    {
        if !self.is_turn_of(claimed) {
            return Err(MoveError::NotYourTurn);
        }
        match verdict {
            Verdict::Rejected(reason) => Err(MoveError::IllegalMove(reason)),
            Verdict::Accepted(next) => {
                self.position = next;
                self.last_move = Some(game_move);
                Ok(self.current_view())
            },
        }
    }

    /// Puts the game back to `initial`, the rule engine's first position, and
    /// answers with the refreshed view. The session is then what a new one
    /// started at `initial` is: the move on record is forgotten.
    pub fn reset(&mut self, initial: Position<S>) -> (view: GameView<S>)
        ensures
            *final(self) == old(self).after_reset(initial),
            view == final(self).view_now(),
    {
        self.position = initial;
        self.last_move = None;
        self.current_view()
    }
}

/// A move in the name of a side that does not hold the turn is answered with
/// `NotYourTurn` and changes nothing, whatever the move and the verdict.
pub proof fn lemma_out_of_turn_changes_nothing<S: Copy, M: Copy>(
    session: Session<S, M>,
    game_move: M,
    claimed: Player,
    verdict: Verdict<S>,
)
    requires
        session.position.turn != Some(claimed),
    ensures
        session.move_result(Some(claimed), verdict) == Err::<(), MoveError>(MoveError::NotYourTurn),
        session.after_move(game_move, Some(claimed), verdict) == session,
{
}

/// A rejected move changes nothing.
pub proof fn lemma_rejected_changes_nothing<S: Copy, M: Copy>(
    session: Session<S, M>,
    game_move: M,
    claimed: Option<Player>,
    reason: String,
)
    ensures
        session.after_move(game_move, claimed, Verdict::Rejected(reason)) == session,
        session.move_result(claimed, Verdict::Rejected(reason)) is Err,
{
}

/// A reset gives the session that a new game at the same first position
/// starts with, whatever was played before. So resetting twice gives what
/// resetting once gives, and the same view both times: the first view.
pub proof fn lemma_reset_idempotent<S: Copy, M: Copy>(session: Session<S, M>, initial: Position<S>)
    ensures
        session.after_reset(initial) == (Session::<S, M> { position: initial, last_move: None }),
        session.after_reset(initial).after_reset(initial) == session.after_reset(initial),
        session.after_reset(initial).after_reset(initial).view_now() == session.after_reset(
            initial,
        ).view_now(),
        session.after_reset(initial).view_now() == (GameView { state: initial.state }),
{
}

} // verus!
