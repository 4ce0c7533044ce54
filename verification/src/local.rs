//! A game played by two people at one device.

use vstd::prelude::*;
use crate::effect::{lemma_views_in_concat, lemma_views_in_short, views_in, Effect};
use crate::engine::{Position, Submission, Verdict};
use crate::error::{Failure, MoveError};
use crate::session::Session;
use crate::view::GameView;

verus! {

/// A game on one device. Either side may move when it is its turn; nobody is
/// asked who they are.
#[derive(Clone, Copy, Debug, PartialEq, Eq)]
pub struct LocalGame<S, M> {
    pub session: Session<S, M>,
}

impl<S: Copy, M: Copy> LocalGame<S, M> {
    /// The game after `play_move`.
    pub open spec fn after_play(self, submission: Submission<S, M>) -> LocalGame<S, M> {
        match submission {
            Submission::Malformed(_) => self,
            Submission::Move { game_move, verdict } => LocalGame {
                session: self.session.after_move(game_move, None, verdict),
            },
        }
    }

    /// What `play_move` asks the host to do: show the new board, or report
    /// why there is none.
    pub open spec fn play_effects(self, submission: Submission<S, M>) -> Seq<
        Effect<GameView<S>, S>,
    > {
        match submission {
            Submission::Malformed(detail) => seq![Effect::Error(Failure::Decode(detail))],
            Submission::Move { game_move, verdict } => match verdict {
                Verdict::Rejected(reason) => seq![
                    Effect::Error(Failure::Move(MoveError::IllegalMove(reason))),
                ],
                Verdict::Accepted(next) => seq![Effect::View(GameView { state: next.state })],
            },
        }
    }

    /// Starts a game at `initial` and hands back its first view, so that the
    /// board is on display before any move can be made.
    pub fn new(initial: Position<S>) -> (started: (LocalGame<S, M>, Vec<Effect<GameView<S>, S>>))
        ensures
            started.0.session.position == initial,
            started.0.session.last_move is None,
            started.1@ == seq![Effect::<GameView<S>, S>::View(GameView { state: initial.state })],
    {
        let game = LocalGame { session: Session::new(initial) };
        let mut effects = Vec::new();
        effects.push(Effect::View(game.current_view()));
        (game, effects)
    }

    /// The current view.
    pub fn current_view(&self) -> (view: GameView<S>)
        ensures
            view == self.session.view_now(),
    {
        self.session.current_view()
    }

    /// Plays a move on which the rule engine gave `verdict`. On success the
    /// answer is the view to show.
    pub fn try_move(&mut self, game_move: M, verdict: Verdict<S>) -> (result: Result<
        GameView<S>,
        MoveError,
    >)
        ensures
            final(self).session == old(self).session.after_move(game_move, None, verdict),
            match verdict {
                Verdict::Accepted(next) => result == Ok::<GameView<S>, MoveError>(
                    GameView { state: next.state },
                ),
                Verdict::Rejected(reason) => result == Err::<GameView<S>, MoveError>(
                    MoveError::IllegalMove(reason),
                ),
            },
    {
        self.session.try_move(game_move, None, verdict)
    }

    /// Handles one submitted move. A payload that did not decode is reported
    /// and changes nothing; so is a move the rule engine rejected. An accepted
    /// move changes the board, and the new view is handed back.
    pub fn play_move(&mut self, submission: Submission<S, M>) -> (effects: Vec<
        Effect<GameView<S>, S>,
    >)
        ensures
            *final(self) == old(self).after_play(submission),
            effects@ == old(self).play_effects(submission),
    {
        let mut effects = Vec::new();
        match submission {
            Submission::Malformed(detail) => {
                effects.push(Effect::Error(Failure::Decode(detail)));
            },
            Submission::Move { game_move, verdict } => {
                match self.try_move(game_move, verdict) {
                    Ok(view) => {
                        effects.push(Effect::View(view));
                    },
                    Err(e) => {
                        effects.push(Effect::Error(Failure::Move(e)));
                    },
                }
            },
        }
        effects
    }

    /// Puts the game back to `initial` and hands back the refreshed view.
    pub fn reset(&mut self, initial: Position<S>) -> (effects: Vec<Effect<GameView<S>, S>>)
        ensures
            final(self).session == old(self).session.after_reset(initial),
            effects@ == seq![Effect::<GameView<S>, S>::View(GameView { state: initial.state })],
    {
        let view = self.session.reset(initial);
        let mut effects = Vec::new();
        effects.push(Effect::View(view));
        effects
    }
}

impl<S: Copy, M: Copy> LocalGame<S, M> {
    /// Whether the submission is a move that is played.
    pub open spec fn plays(self, submission: Submission<S, M>) -> bool {
        submission matches Submission::Move { verdict, .. } && verdict is Accepted
    }

    /// The game after a series of calls of `play_move`, the first of them
    /// first.
    pub open spec fn after_all(self, submissions: Seq<Submission<S, M>>) -> LocalGame<S, M>
        decreases submissions.len(),
    {
        if submissions.len() == 0 {
            self
        } else {
            self.after_all(submissions.drop_last()).after_play(submissions.last())
        }
    }

    /// The effects of a series of calls of `play_move`, in the order in which
    /// they arise.
    pub open spec fn effects_of_all(self, submissions: Seq<Submission<S, M>>) -> Seq<
        Effect<GameView<S>, S>,
    >
        decreases submissions.len(),
    {
        if submissions.len() == 0 {
            seq![]
        } else {
            self.effects_of_all(submissions.drop_last()) + self.after_all(
                submissions.drop_last(),
            ).play_effects(submissions.last())
        }
    }

    /// The views of the boards that the moves played among `submissions` led
    /// to, one for each such move, in the order of the moves.
    pub open spec fn boards_played(self, submissions: Seq<Submission<S, M>>) -> Seq<GameView<S>>
        decreases submissions.len(),
    {
        if submissions.len() == 0 {
            seq![]
        } else {
            let earlier = self.boards_played(submissions.drop_last());
            let before = self.after_all(submissions.drop_last());
            if before.plays(submissions.last()) {
                earlier.push(before.after_play(submissions.last()).session.view_now())
            } else {
                earlier
            }
        }
    }
}

/// The views that a local game shows are one for each move that is played,
/// in the order in which the moves are played, each showing the board as that
/// move left it. A submission that is refused shows no view.
pub proof fn lemma_views_in_order<S: Copy, M: Copy>(
    game: LocalGame<S, M>,
    submissions: Seq<Submission<S, M>>,
)
    ensures
        views_in(game.effects_of_all(submissions)) == game.boards_played(submissions),
    decreases submissions.len(),
{
    if submissions.len() > 0 {
        let earlier = submissions.drop_last();
        let before = game.after_all(earlier);
        let step = before.play_effects(submissions.last());
        lemma_views_in_order(game, earlier);
        lemma_views_in_concat(game.effects_of_all(earlier), step);
        lemma_views_in_short(step);
    }
}

} // verus!
