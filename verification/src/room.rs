//! A room: one game between two seats, played over connections.

use vstd::prelude::*;
use crate::agent::{AiAgent, MoveRequest};
use crate::engine::{Position, Submission, Verdict};
use crate::error::{Failure, JoinError, MoveError};
use crate::player::Player;
use crate::session::Session;
use crate::view::GameView;

verus! {

/// The second seat of a room, which plays Blue.
#[derive(Clone, Copy, Debug, PartialEq, Eq, Structural)]
pub enum Seat {
    /// Nobody has joined yet.
    Open,
    /// The connection that joined.
    Human(u64),
    /// The computer, playing with this strategy.
    Computer(AiAgent),
}

/// Who submits a move to a room.
#[derive(Clone, Copy, Debug, PartialEq, Eq, Structural)]
pub enum Mover {
    /// The participant behind this connection.
    Connection(u64),
    /// The computer opponent.
    Computer,
}

/// What is sent to one connection.
#[derive(Clone, Debug, PartialEq, Eq)]
pub enum Message<S> {
    /// The board after a change.
    View(GameView<S>),
    /// A failure of something that this connection asked for.
    Error(Failure),
}

/// One thing for the host of a room to do. An operation hands back its
/// effects in the order in which they are to be carried out.
#[derive(Clone, Debug, PartialEq, Eq)]
pub enum Outbound<S> {
    /// Send `message` to the connection `to`.
    Deliver { to: u64, message: Message<S> },
    /// Ask the computer opponent of the room `key` for a move.
    AiRequest { key: u128, request: MoveRequest<S> },
}

/// A room. The connection that created it sits in the first seat and plays
/// Red; the second seat plays Blue. The room is waiting while the second seat
/// is open and active from then on: a seat, once taken, is never given up.
/// With one seat for Red and one for Blue, a room never has more than two
/// participants.
#[derive(Clone, Copy, Debug, PartialEq, Eq)]
pub struct Room<S, M> {
    pub key: u128,
    pub red: u64,
    pub blue: Seat,
    pub session: Session<S, M>,
}

impl<S: Copy, M: Copy> Room<S, M> {
    /// A waiting room, just created by `creator`.
    pub open spec fn opened(key: u128, creator: u64, initial: Position<S>) -> Room<S, M> {
        Room {
            key,
            red: creator,
            blue: Seat::Open,
            session: Session { position: initial, last_move: None },
        }
    }

    /// An active room in which `creator` plays the computer.
    pub open spec fn opened_with_computer(
        key: u128,
        creator: u64,
        agent: AiAgent,
        initial: Position<S>,
    ) -> Room<S, M> {
        Room {
            key,
            red: creator,
            blue: Seat::Computer(agent),
            session: Session { position: initial, last_move: None },
        }
    }

    /// Whether both seats are taken.
    pub open spec fn active(self) -> bool {
        !(self.blue is Open)
    }

    /// The number of participants, human or not.
    pub open spec fn occupancy(self) -> nat {
        if self.blue is Open {
            1
        } else {
            2
        }
    }

    /// The side that `mover` plays in this room, if it has a seat. A
    /// connection that sits in both seats counts as Red.
    pub open spec fn side_of(self, mover: Mover) -> Option<Player> {
        match mover {
            Mover::Connection(conn) => if conn == self.red {
                Some(Player::Red)
            } else if self.blue == Seat::Human(conn) {
                Some(Player::Blue)
            } else {
                None
            },
            Mover::Computer => if self.blue is Computer {
                Some(Player::Blue)
            } else {
                None
            },
        }
    }

    /// Whether `mover` may move now: the room is active, `mover` has a seat,
    /// and its side holds the turn.
    pub open spec fn may_move(self, mover: Mover) -> bool {
        &&& self.active()
        &&& self.side_of(mover) is Some
        &&& self.side_of(mover) == self.session.position.turn
    }

    /// The deliveries that show `view` to every human participant: first to
    /// Red, then to Blue.
    pub open spec fn broadcast(self, view: GameView<S>) -> Seq<Outbound<S>> {
        let to_red = Outbound::Deliver { to: self.red, message: Message::View(view) };
        match self.blue {
            Seat::Human(conn) => seq![
                to_red,
                Outbound::Deliver { to: conn, message: Message::View(view) },
            ],
            _ => seq![to_red],
        }
    }

    /// The request to the computer that is due: one for the current board if
    /// the computer sits in the room and holds the turn, none otherwise.
    pub open spec fn ai_effects(self) -> Seq<Outbound<S>> {
        match self.blue {
            Seat::Computer(agent) if self.session.position.turn == Some(Player::Blue) => seq![
                Outbound::AiRequest {
                    key: self.key,
                    request: MoveRequest { state: self.session.position.state, agent },
                },
            ],
            _ => seq![],
        }
    }

    /// What a room with the computer asks of its host when it opens: a move
    /// of the computer if it holds the first turn, then the first view.
    pub open spec fn opening_effects(self) -> Seq<Outbound<S>> {
        self.ai_effects() + self.broadcast(self.session.view_now())
    }

    /// The room after `conn` took the second seat.
    pub open spec fn joined(self, conn: u64) -> Room<S, M> {
        Room { blue: Seat::Human(conn), ..self }
    }

    /// What `try_move` answers, apart from the effects.
    pub open spec fn move_result(self, mover: Mover, verdict: Verdict<S>) -> Result<(), MoveError> {
        if !self.may_move(mover) {
            Err(MoveError::NotYourTurn)
        } else {
            match verdict {
                Verdict::Rejected(reason) => Err(MoveError::IllegalMove(reason)),
                Verdict::Accepted(_) => Ok(()),
            }
        }
    }

    /// The room after `try_move`.
    pub open spec fn after_move(self, mover: Mover, game_move: M, verdict: Verdict<S>) -> Room<S, M> {
        match verdict {
            Verdict::Accepted(next) if self.may_move(mover) => Room {
                session: Session { position: next, last_move: Some(game_move) },
                ..self
            },
            _ => self,
        }
    }

    /// The effects of an accepted move, told of the room after it: the new
    /// view for every human participant, then a request to the computer if it
    /// holds the turn.
    pub open spec fn change_effects(self) -> Seq<Outbound<S>> {
        self.broadcast(self.session.view_now()) + self.ai_effects()
    }

    /// The room after `submit`.
    pub open spec fn after_submit(self, conn: u64, submission: Submission<S, M>) -> Room<S, M> {
        match submission {
            Submission::Malformed(_) => self,
            Submission::Move { game_move, verdict } => self.after_move(
                Mover::Connection(conn),
                game_move,
                verdict,
            ),
        }
    }

    /// What `submit` asks of the host.
    pub open spec fn submit_effects(self, conn: u64, submission: Submission<S, M>) -> Seq<
        Outbound<S>,
    > {
        match submission {
            Submission::Malformed(detail) => seq![
                Outbound::Deliver { to: conn, message: Message::Error(Failure::Decode(detail)) },
            ],
            Submission::Move { game_move, verdict } => match self.move_result(
                Mover::Connection(conn),
                verdict,
            ) {
                Ok(_) => self.after_submit(conn, submission).change_effects(),
                Err(e) => seq![
                    Outbound::Deliver { to: conn, message: Message::Error(Failure::Move(e)) },
                ],
            },
        }
    }

    /// Creates a waiting room under `key` with `creator` in the first seat.
    pub fn open(key: u128, creator: u64, initial: Position<S>) -> (room: Room<S, M>)
        ensures
            room == Self::opened(key, creator, initial),
    {
        Room { key, red: creator, blue: Seat::Open, session: Session::new(initial) }
    }

    /// Creates an active room under `key` in which `creator` plays the
    /// computer. If the computer holds the first turn, a move is requested of
    /// it before the first view goes out.
    pub fn open_with_computer(key: u128, creator: u64, agent: AiAgent, initial: Position<S>) -> (opened:
        (Room<S, M>, Vec<Outbound<S>>))
        ensures
            opened.0 == Self::opened_with_computer(key, creator, agent, initial),
            opened.1@ == opened.0.opening_effects(),
    {
        let room = Room {
            key,
            red: creator,
            blue: Seat::Computer(agent),
            session: Session::new(initial),
        };
        let mut effects = Vec::new();
        room.push_ai_request(&mut effects);
        room.push_broadcast(&mut effects);
        (room, effects)
    }

    /// Whether both seats are taken.
    pub fn is_active(&self) -> (active: bool)
        ensures
            active == self.active(),
    {
        match self.blue {
            Seat::Open => false,
            _ => true,
        }
    }

    /// The side that `mover` plays in this room, if it has a seat.
    pub fn seat_of(&self, mover: Mover) -> (side: Option<Player>)
        ensures
            side == self.side_of(mover),
    {
        match mover {
            Mover::Connection(conn) => {
                if conn == self.red {
                    Some(Player::Red)
                } else {
                    match self.blue {
                        Seat::Human(other) => if other == conn {
                            Some(Player::Blue)
                        } else {
                            None
                        },
                        _ => None,
                    }
                }
            },
            Mover::Computer => match self.blue {
                Seat::Computer(_) => Some(Player::Blue),
                _ => None,
            },
        }
    }

    /// The current view.
    pub fn current_view(&self) -> (view: GameView<S>)
        ensures
            view == self.session.view_now(),
    {
        self.session.current_view()
    }

    /// Appends the current view for every human participant to `effects`.
    fn push_broadcast(&self, effects: &mut Vec<Outbound<S>>)
        ensures
            final(effects)@ == old(effects)@ + self.broadcast(self.session.view_now()),
    {
        let view = self.session.current_view();
        effects.push(Outbound::Deliver { to: self.red, message: Message::View(view) });
        match self.blue {
            Seat::Human(conn) => {
                effects.push(Outbound::Deliver { to: conn, message: Message::View(view) });
            },
            _ => {},
        }
    }

    /// Appends the request to the computer that is due, if any, to `effects`.
    fn push_ai_request(&self, effects: &mut Vec<Outbound<S>>)
        ensures
            final(effects)@ == old(effects)@ + self.ai_effects(),
    {
        match self.blue {
            Seat::Computer(agent) => {
                if self.session.is_turn_of(Some(Player::Blue)) {
                    effects.push(
                        Outbound::AiRequest {
                            key: self.key,
                            request: MoveRequest { state: self.session.snapshot(), agent },
                        },
                    );
                }
            },
            _ => {},
        }
    }

    /// Seats `conn` in the second seat. A room whose second seat is taken, by
    /// a person or by the computer, answers `RoomFull` and stays as it was.
    /// Otherwise the room becomes active, and the current view goes to both
    /// participants.
    pub fn join(&mut self, conn: u64) -> (result: Result<Vec<Outbound<S>>, JoinError>)
        ensures
            match result {
                Ok(effects) => {
                    &&& !old(self).active()
                    &&& *final(self) == old(self).joined(conn)
                    &&& effects@ == final(self).broadcast(final(self).session.view_now())
                },
                Err(e) => {
                    &&& old(self).active()
                    &&& e == JoinError::RoomFull
                    &&& *final(self) == *old(self)
                },
            },
    {
        if self.is_active() {
            return Err(JoinError::RoomFull);
        }
        self.blue = Seat::Human(conn);
        let mut effects = Vec::new();
        self.push_broadcast(&mut effects);
        Ok(effects)
    }

    /// Plays a move of `mover`, on which the rule engine gave `verdict`.
    ///
    /// The move is answered with `NotYourTurn` unless the room is active,
    /// `mover` has a seat and its side holds the turn; a move that the rule
    /// engine rejected is answered with `IllegalMove`. Neither changes the
    /// room. An accepted move changes the board; the effects are the new view
    /// for every human participant, the same for both, and after it a request
    /// to the computer if it holds the turn.
    pub fn try_move(&mut self, mover: Mover, game_move: M, verdict: Verdict<S>) -> (result: Result<
        Vec<Outbound<S>>,
        MoveError,
    >)
        ensures
            *final(self) == old(self).after_move(mover, game_move, verdict),
            match result {
                Ok(effects) => {
                    &&& old(self).move_result(mover, verdict) is Ok
                    &&& effects@ == final(self).change_effects()
                },
                Err(e) => old(self).move_result(mover, verdict) == Err::<(), MoveError>(e),
            },
    {
        if !self.is_active() {
            return Err(MoveError::NotYourTurn);
        }
        let side = match self.seat_of(mover) {
            Some(side) => side,
            None => {
                return Err(MoveError::NotYourTurn);
            },
        };
        match self.session.try_move(game_move, Some(side), verdict) {
            Ok(_) => {
                let mut effects = Vec::new();
                self.push_broadcast(&mut effects);
                self.push_ai_request(&mut effects);
                Ok(effects)
            },
            Err(e) => Err(e),
        }
    }

    /// Handles one inbound message of the connection `conn`.
    ///
    /// A payload that did not decode is reported to `conn` and goes no
    /// further. A move is played in the name of `conn`; if it is refused, the
    /// failure is reported to `conn` alone.
    pub fn submit(&mut self, conn: u64, submission: Submission<S, M>) -> (effects: Vec<Outbound<S>>)
        ensures
            *final(self) == old(self).after_submit(conn, submission),
            effects@ == old(self).submit_effects(conn, submission),
    {
        let failure = match submission {
            Submission::Malformed(detail) => Failure::Decode(detail),
            Submission::Move { game_move, verdict } => {
                match self.try_move(Mover::Connection(conn), game_move, verdict) {
                    Ok(effects) => {
                        return effects;
                    },
                    Err(e) => Failure::Move(e),
                }
            },
        };
        let mut effects = Vec::new();
        effects.push(Outbound::Deliver { to: conn, message: Message::Error(failure) });
        effects
    }

    /// Puts the board back to `initial` and shows the refreshed view to every
    /// human participant. The seats stay, the move on record is forgotten,
    /// and no move is requested of the computer.
    pub fn reset(&mut self, initial: Position<S>) -> (effects: Vec<Outbound<S>>)
        ensures
            *final(self) == (Room { session: old(self).session.after_reset(initial), ..*old(self) }),
            effects@ == final(self).broadcast(GameView { state: initial.state }),
    {
        self.session.reset(initial);
        let mut effects = Vec::new();
        self.push_broadcast(&mut effects);
        effects
    }
}

} // verus!
