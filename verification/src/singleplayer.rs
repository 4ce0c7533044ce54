//! A game of one person against the computer.

use vstd::prelude::*;
use crate::agent::{AiAgent, MoveRequest};
use crate::effect::{lemma_views_in_concat, lemma_views_in_short, views_in, Effect};
use crate::engine::{Position, Submission, Verdict};
use crate::error::{Failure, MoveError};
use crate::player::Player;
use crate::random::random_bool;
use crate::session::Session;
use crate::view::{GameView, SinglePlayerView};

verus! {

/// A game against the computer. The human plays `player`, the computer the
/// other side, with the strategy `agent`.
///
/// The computer's moves come from outside: when it is the computer's turn the
/// game asks for one, and the answer is played like any other move, in the
/// computer's name.
#[derive(Clone, Copy, Debug, PartialEq, Eq)]
pub struct SinglePlayerGame<S, M> {
    pub session: Session<S, M>,
    pub player: Player,
    pub agent: AiAgent,
}

/// The effects of a game against the computer.
pub type SinglePlayerEffect<S, M> = Effect<SinglePlayerView<S, M>, S>;

impl<S: Copy, M: Copy> SinglePlayerGame<S, M> {
    /// A new game in which the human plays `player`.
    pub open spec fn started(agent: AiAgent, player: Player, initial: Position<S>) -> SinglePlayerGame<
        S,
        M,
    > {
        SinglePlayerGame { session: Session { position: initial, last_move: None }, player, agent }
    }

    /// The side in whose name a move is submitted.
    pub open spec fn mover(self, is_player: bool) -> Player {
        if is_player {
            self.player
        } else {
            self.player.inverted()
        }
    }

    /// The view of the game as it stands.
    pub open spec fn view_now(self) -> SinglePlayerView<S, M> {
        SinglePlayerView {
            player: self.player,
            game: self.session.view_now(),
            last_move: self.session.last_move,
        }
    }

    /// The request that is due: one for the current board if the computer
    /// holds the turn, none otherwise.
    pub open spec fn ai_request(self) -> Option<MoveRequest<S>> {
        if self.session.position.turn == Some(self.player.inverted()) {
            Some(MoveRequest { state: self.session.position.state, agent: self.agent })
        } else {
            None
        }
    }

    /// The request that is due, as a list of effects.
    pub open spec fn ai_effects(self) -> Seq<SinglePlayerEffect<S, M>> {
        match self.ai_request() {
            Some(request) => seq![Effect::AiRequest(request)],
            None => seq![],
        }
    }

    /// What a new game asks of its host: first a move from the computer, if
    /// the computer opens, then the first view.
    pub open spec fn opening_effects(self) -> Seq<SinglePlayerEffect<S, M>> {
        self.ai_effects().push(Effect::View(self.view_now()))
    }

    /// The game after `play_move`.
    pub open spec fn after_play(self, submission: Submission<S, M>, is_player: bool) -> SinglePlayerGame<
        S,
        M,
    > {
        match submission {
            Submission::Move { game_move, verdict } => SinglePlayerGame {
                session: self.session.after_move(game_move, Some(self.mover(is_player)), verdict),
                ..self
            },
            Submission::Malformed(_) => self,
        }
    }

    /// What `play_move` asks of the host.
    pub open spec fn play_effects(self, submission: Submission<S, M>, is_player: bool) -> Seq<
        SinglePlayerEffect<S, M>,
    > {
        match submission {
            Submission::Malformed(detail) => seq![Effect::Error(Failure::Decode(detail))],
            Submission::Move { game_move, verdict } => match self.session.move_result(
                Some(self.mover(is_player)),
                verdict,
            ) {
                Err(e) => seq![Effect::Error(Failure::Move(e))],
                Ok(_) => {
                    let game = self.after_play(submission, is_player);
                    seq![Effect::View(game.view_now())] + game.ai_effects()
                },
            },
        }
    }

    /// The game after `reset`.
    pub open spec fn after_reset(self, initial: Position<S>) -> SinglePlayerGame<S, M> {
        SinglePlayerGame { session: self.session.after_reset(initial), ..self }
    }

    /// Starts a game at `initial` in which the human plays a side drawn at
    /// random: the side that `side_for` gives for a coin. Whichever side was
    /// drawn, the game and its first effects are those of `with_player` for
    /// that side.
    pub fn new(difficulty: &str, initial: Position<S>) -> (started: (
        SinglePlayerGame<S, M>,
        Vec<SinglePlayerEffect<S, M>>,
    ))
        ensures
            started.0 == Self::started(
                AiAgent::for_label(difficulty@),
                started.0.player,
                initial,
            ),
            started.1@ == started.0.opening_effects(),
    {
        Self::with_player(difficulty, side_for(random_bool()), initial)
    }

    /// Starts a game at `initial` in which the human plays `player` and the
    /// computer plays with the strategy that `difficulty` stands for. If the
    /// computer opens, a move is requested of it before the first view is
    /// shown.
    pub fn with_player(difficulty: &str, player: Player, initial: Position<S>) -> (started: (
        SinglePlayerGame<S, M>,
        Vec<SinglePlayerEffect<S, M>>,
    ))
        ensures
            started.0 == Self::started(AiAgent::for_label(difficulty@), player, initial),
            started.1@ == started.0.opening_effects(),
    {
        let agent = AiAgent::from_difficulty(difficulty);
        let game = SinglePlayerGame { session: Session::new(initial), player, agent };
        let mut effects = Vec::new();
        game.push_ai_request(&mut effects);
        effects.push(Effect::View(game.current_view()));
        (game, effects)
    }

    /// The current view.
    pub fn current_view(&self) -> (view: SinglePlayerView<S, M>)
        ensures
            view == self.view_now(),
    {
        SinglePlayerView {
            player: self.player,
            game: self.session.current_view(),
            last_move: self.session.last_move,
        }
    }

    /// The request to send to the computer now, if it holds the turn.
    pub fn agent_move(&self) -> (request: Option<MoveRequest<S>>)
        ensures
            request == self.ai_request(),
    {
        if self.session.is_turn_of(Some(self.player.invert())) {
            Some(MoveRequest { state: self.session.snapshot(), agent: self.agent })
        } else {
            None
        }
    }

    /// Appends the request that is due, if any, to `effects`.
    fn push_ai_request(&self, effects: &mut Vec<SinglePlayerEffect<S, M>>)
        ensures
            final(effects)@ == old(effects)@ + self.ai_effects(),
    {
        match self.agent_move() {
            Some(request) => {
                effects.push(Effect::AiRequest(request));
            },
            None => {},
        }
    }

    /// Plays a move in the name of `claimed`, on which the rule engine gave
    /// `verdict`. On success the answer is the view to show.
    pub fn try_move(&mut self, game_move: M, claimed: Player, verdict: Verdict<S>) -> (result: Result<
        SinglePlayerView<S, M>,
        MoveError,
    >)
        ensures
            final(self).session == old(self).session.after_move(game_move, Some(claimed), verdict),
            final(self).player == old(self).player,
            final(self).agent == old(self).agent,
            match old(self).session.move_result(Some(claimed), verdict) {
                Ok(_) => result == Ok::<SinglePlayerView<S, M>, MoveError>(final(self).view_now()),
                Err(e) => result == Err::<SinglePlayerView<S, M>, MoveError>(e),
            },
    {
        match self.session.try_move(game_move, Some(claimed), verdict) {
            Ok(_) => Ok(self.current_view()),
            Err(e) => Err(e),
        }
    }

    /// Handles one submitted move: the human's if `is_player`, the computer's
    /// otherwise.
    ///
    /// A payload that did not decode is reported as such, whoever holds the
    /// turn: it never gets as far as the turn check. A decoded move in the
    /// name of the side that does not hold the turn is answered with
    /// `NotYourTurn`, and one that the rule engine rejected with
    /// `IllegalMove`. None of these changes the game. An accepted move changes
    /// the board; the new view is shown, and if the computer holds the turn
    /// after it, one move is requested of it.
    pub fn play_move(&mut self, submission: Submission<S, M>, is_player: bool) -> (effects: Vec<
        SinglePlayerEffect<S, M>,
    >)
        ensures
            *final(self) == old(self).after_play(submission, is_player),
            effects@ == old(self).play_effects(submission, is_player),
    {
        let mut effects = Vec::new();
        match submission {
            Submission::Malformed(detail) => {
                effects.push(Effect::Error(Failure::Decode(detail)));
            },
            Submission::Move { game_move, verdict } => {
                let claimed = if is_player {
                    self.player
                } else {
                    self.player.invert()
                };
                match self.try_move(game_move, claimed, verdict) {
                    Ok(view) => {
                        effects.push(Effect::View(view));
                        self.push_ai_request(&mut effects);
                    },
                    Err(e) => {
                        effects.push(Effect::Error(Failure::Move(e)));
                    },
                }
            },
        }
        effects
    }

    /// Puts the board back to `initial` and hands back the refreshed view,
    /// which is the first view of a new game at `initial`: it shows no last
    /// move. The sides and the strategy stay; no move is requested of the
    /// computer.
    pub fn reset(&mut self, initial: Position<S>) -> (effects: Vec<SinglePlayerEffect<S, M>>)
        ensures
            *final(self) == old(self).after_reset(initial),
            effects@ == seq![
                Effect::<SinglePlayerView<S, M>, S>::View(
                    SinglePlayerView {
                        player: old(self).player,
                        game: GameView { state: initial.state },
                        last_move: None,
                    },
                ),
            ],
    {
        self.session.reset(initial);
        let mut effects = Vec::new();
        effects.push(Effect::View(self.current_view()));
        effects
    }
}

/// The side that a drawn coin gives the human: Red for `true`, Blue for
/// `false`. The side depends on the coin alone, so a fair coin gives a fair
/// choice of side.
pub fn side_for(is_red: bool) -> (side: Player)
    ensures
        side == (if is_red {
            Player::Red
        } else {
            Player::Blue
        }),
{
    if is_red {
        Player::Red
    } else {
        Player::Blue
    }
}

/// A payload that did not decode is answered with the decoder's complaint
/// alone, whoever holds the turn and in whoever's name it came, and leaves
/// the game as it was.
pub proof fn lemma_malformed_play<S: Copy, M: Copy>(
    game: SinglePlayerGame<S, M>,
    detail: String,
    is_player: bool,
)
    ensures
        game.after_play(Submission::Malformed(detail), is_player) == game,
        game.play_effects(Submission::Malformed(detail), is_player) == seq![
            Effect::<SinglePlayerView<S, M>, S>::Error(Failure::Decode(detail)),
        ],
{
}

/// A decoded move in the name of the side that does not hold the turn is
/// answered with `NotYourTurn` alone and leaves the game as it was, whatever
/// the move and the verdict on it.
pub proof fn lemma_out_of_turn_play<S: Copy, M: Copy>(
    game: SinglePlayerGame<S, M>,
    game_move: M,
    verdict: Verdict<S>,
    is_player: bool,
)
    requires
        game.session.position.turn != Some(game.mover(is_player)),
    ensures
        game.after_play(Submission::Move { game_move, verdict }, is_player) == game,
        game.play_effects(Submission::Move { game_move, verdict }, is_player) == seq![
            Effect::<SinglePlayerView<S, M>, S>::Error(Failure::Move(MoveError::NotYourTurn)),
        ],
{
}

/// While a request to the computer is due, the computer holds the turn: a
/// decoded move of the human is refused and changes nothing.
pub proof fn lemma_human_waits_for_computer<S: Copy, M: Copy>(
    game: SinglePlayerGame<S, M>,
    game_move: M,
    verdict: Verdict<S>,
)
    requires
        game.ai_request() is Some,
    ensures
        game.after_play(Submission::Move { game_move, verdict }, true) == game,
        game.play_effects(Submission::Move { game_move, verdict }, true) == seq![
            Effect::<SinglePlayerView<S, M>, S>::Error(Failure::Move(MoveError::NotYourTurn)),
        ],
{
}

/// A reset shows the view that a new game at the same first position shows
/// first, with the same side for the human and no last move, whatever was
/// played before. A second reset shows the same view and changes nothing
/// more.
pub proof fn lemma_reset_shows_first_view<S: Copy, M: Copy>(
    game: SinglePlayerGame<S, M>,
    initial: Position<S>,
)
    ensures
        game.after_reset(initial) == SinglePlayerGame::<S, M>::started(
            game.agent,
            game.player,
            initial,
        ),
        game.after_reset(initial).view_now() == (SinglePlayerView::<S, M> {
            player: game.player,
            game: GameView { state: initial.state },
            last_move: None,
        }),
        game.after_reset(initial).after_reset(initial) == game.after_reset(initial),
{
}

/// When the computer opens, a new game asks for exactly one move of the
/// computer and then shows the first view; otherwise it only shows the view.
pub proof fn lemma_opening<S: Copy, M: Copy>(agent: AiAgent, player: Player, initial: Position<S>)
    ensures
        ({
            let game = SinglePlayerGame::<S, M>::started(agent, player, initial);
            let view = SinglePlayerView::<S, M> {
                player,
                game: GameView { state: initial.state },
                last_move: None,
            };
            if initial.turn == Some(player.inverted()) {
                game.opening_effects() == seq![
                    Effect::<SinglePlayerView<S, M>, S>::AiRequest(
                        MoveRequest { state: initial.state, agent },
                    ),
                    Effect::View(view),
                ]
            } else {
                game.opening_effects() == seq![Effect::<SinglePlayerView<S, M>, S>::View(view)]
            }
        }),
{
}

/// One call of `play_move`: what was submitted, and whether in the human's
/// name.
pub type Play<S, M> = (Submission<S, M>, bool);

/// The number of requests to the computer among `effects`.
pub open spec fn requests_in<S, M>(effects: Seq<SinglePlayerEffect<S, M>>) -> nat {
    effects.filter(|e: SinglePlayerEffect<S, M>| e is AiRequest).len()
}

impl<S: Copy, M: Copy> SinglePlayerGame<S, M> {
    /// The game after a series of calls of `play_move`, the first of them
    /// first.
    pub open spec fn after_all(self, plays: Seq<Play<S, M>>) -> SinglePlayerGame<S, M>
        decreases plays.len(),
    {
        if plays.len() == 0 {
            self
        } else {
            self.after_all(plays.drop_last()).after_play(plays.last().0, plays.last().1)
        }
    }

    /// Whether the call plays a move of the computer, and so answers a
    /// request.
    pub open spec fn answers(self, play: Play<S, M>) -> bool {
        &&& !play.1
        &&& self.session.position.turn == Some(self.player.inverted())
        &&& play.0 matches Submission::Move { verdict, .. }
        &&& verdict is Accepted
    }

    /// The requests that are out after a new game has opened and `plays` have
    /// been handled: those sent, less those answered.
    pub open spec fn outstanding(self, plays: Seq<Play<S, M>>) -> int
        decreases plays.len(),
    {
        if plays.len() == 0 {
            requests_in(self.opening_effects()) as int
        } else {
            let before = self.after_all(plays.drop_last());
            self.outstanding(plays.drop_last()) + requests_in(
                before.play_effects(plays.last().0, plays.last().1),
            ) - (if before.answers(plays.last()) {
                1int
            } else {
                0int
            })
        }
    }
}

/// A new game asks the computer for a move if and only if the computer
/// holds the turn.
proof fn lemma_requests_at_opening<S: Copy, M: Copy>(game: SinglePlayerGame<S, M>)
    ensures
        requests_in(game.opening_effects()) == (if game.ai_request() is Some {
            1nat
        } else {
            0nat
        }),
{
    reveal_with_fuel(Seq::filter, 3);
    let opened = game.opening_effects();
    if opened.len() == 2 {
        assert(opened.drop_last().drop_last() =~= Seq::empty());
    } else {
        assert(opened.drop_last() =~= Seq::empty());
    }
}

/// A call of `play_move` asks the computer for a move if and only if it
/// plays a move and the computer holds the turn after it.
proof fn lemma_requests_in_play<S: Copy, M: Copy>(game: SinglePlayerGame<S, M>, play: Play<S, M>)
    ensures
        requests_in(game.play_effects(play.0, play.1)) == (if game.play_effects(play.0, play.1)[0]
            is View && game.after_play(play.0, play.1).ai_request() is Some {
            1nat
        } else {
            0nat
        }),
{
    reveal_with_fuel(Seq::filter, 3);
    let played = game.play_effects(play.0, play.1);
    if played.len() == 2 {
        assert(played.drop_last().drop_last() =~= Seq::empty());
    } else {
        assert(played.drop_last() =~= Seq::empty());
    }
}

/// No operation asks the computer for more than one move.
pub proof fn lemma_one_request_at_most<S: Copy, M: Copy>(
    game: SinglePlayerGame<S, M>,
    submission: Submission<S, M>,
    is_player: bool,
)
    ensures
        requests_in(game.play_effects(submission, is_player)) <= 1,
        requests_in(game.opening_effects()) <= 1,
{
    lemma_requests_at_opening(game);
    lemma_requests_in_play(game, (submission, is_player));
}

/// In a game that is only played, not reset, a request to the computer is
/// out exactly while the computer holds the turn: never more than one at a
/// time, and none while the human may move.
pub proof fn lemma_one_outstanding_request<S: Copy, M: Copy>(
    game: SinglePlayerGame<S, M>,
    plays: Seq<Play<S, M>>,
)
    ensures
        game.outstanding(plays) == (if game.after_all(plays).ai_request() is Some {
            1int
        } else {
            0int
        }),
    decreases plays.len(),
{
    if plays.len() == 0 {
        lemma_requests_at_opening(game);
    } else {
        lemma_one_outstanding_request(game, plays.drop_last());
        lemma_requests_in_play(game.after_all(plays.drop_last()), plays.last());
    }
}

impl<S: Copy, M: Copy> SinglePlayerGame<S, M> {
    /// Whether the call plays a move.
    pub open spec fn plays(self, play: Play<S, M>) -> bool {
        play.0 matches Submission::Move { verdict, .. } && self.session.move_result(
            Some(self.mover(play.1)),
            verdict,
        ) is Ok
    }

    /// The effects of a series of calls of `play_move`, in the order in which
    /// they arise.
    pub open spec fn effects_of_all(self, plays: Seq<Play<S, M>>) -> Seq<SinglePlayerEffect<S, M>>
        decreases plays.len(),
    {
        if plays.len() == 0 {
            seq![]
        } else {
            self.effects_of_all(plays.drop_last()) + self.after_all(plays.drop_last()).play_effects(
                plays.last().0,
                plays.last().1,
            )
        }
    }

    /// The views of the game after each move that is played among `plays`, in
    /// the order of the moves.
    pub open spec fn boards_played(self, plays: Seq<Play<S, M>>) -> Seq<SinglePlayerView<S, M>>
        decreases plays.len(),
    {
        if plays.len() == 0 {
            seq![]
        } else {
            let earlier = self.boards_played(plays.drop_last());
            let before = self.after_all(plays.drop_last());
            if before.plays(plays.last()) {
                earlier.push(before.after_play(plays.last().0, plays.last().1).view_now())
            } else {
                earlier
            }
        }
    }
}

/// The views that a game against the computer shows are one for each move
/// that is played, the human's or the computer's, in the order in which the
/// moves are played, each showing the game as that move left it. A call that
/// is refused shows no view.
pub proof fn lemma_views_in_order<S: Copy, M: Copy>(
    game: SinglePlayerGame<S, M>,
    plays: Seq<Play<S, M>>,
)
    ensures
        views_in(game.effects_of_all(plays)) == game.boards_played(plays),
    decreases plays.len(),
{
    if plays.len() > 0 {
        let earlier = plays.drop_last();
        let before = game.after_all(earlier);
        let step = before.play_effects(plays.last().0, plays.last().1);
        lemma_views_in_order(game, earlier);
        lemma_views_in_concat(game.effects_of_all(earlier), step);
        lemma_views_in_short(step);
    }
}

} // verus!
