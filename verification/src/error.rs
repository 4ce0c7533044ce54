//! The failures a session or the coordinator reports.

use vstd::prelude::*;

verus! {

/// Why a move was not played.
#[derive(Clone, Debug, PartialEq, Eq)]
pub enum MoveError {
    /// The side that submitted the move does not hold the turn.
    NotYourTurn,
    /// The rule engine refused the move, for the reason given.
    IllegalMove(String),
}

/// Why a connection was not admitted to a room.
#[derive(Clone, Copy, Debug, PartialEq, Eq, Structural)]
pub enum JoinError {
    /// No room is registered under the key.
    RoomNotFound,
    /// The room has no free seat.
    RoomFull,
}

/// What an error message to one connection is about.
#[derive(Clone, Debug, PartialEq, Eq)]
pub enum Failure {
    /// A move was refused.
    Move(MoveError),
    /// An inbound payload did not decode; the text is the decoder's.
    Decode(String),
    /// An admission failed, or the room addressed is gone.
    Join(JoinError),
}

impl MoveError {
    /// The text of the error message.
    pub open spec fn text(self) -> Seq<char> {
        match self {
            MoveError::NotYourTurn => "Not your turn"@,
            MoveError::IllegalMove(reason) => reason@,
        }
    }

    /// Returns the text sent to the participant.
    pub fn message(&self) -> (text: String)
        ensures
            text@ == self.text(),
    {
        match self {
            MoveError::NotYourTurn => "Not your turn".to_owned(),
            MoveError::IllegalMove(reason) => reason.clone(),
        }
    }
}

impl JoinError {
    /// The text of the error message.
    pub open spec fn text(self) -> Seq<char> {
        match self {
            JoinError::RoomNotFound => "Room not found"@,
            JoinError::RoomFull => "Room is full"@,
        }
    }

    /// Returns the text sent to the participant.
    pub fn message(&self) -> (text: String)
        ensures
            text@ == self.text(),
    {
        match self {
            JoinError::RoomNotFound => "Room not found".to_owned(),
            JoinError::RoomFull => "Room is full".to_owned(),
        }
    }
}

impl Failure {
    /// The text of the error message.
    pub open spec fn text(self) -> Seq<char> {
        match self {
            Failure::Move(e) => e.text(),
            Failure::Decode(detail) => detail@,
            Failure::Join(e) => e.text(),
        }
    }

    /// Returns the text sent to the participant.
    pub fn message(&self) -> (text: String)
        ensures
            text@ == self.text(),
    {
        match self {
            Failure::Move(e) => e.message(),
            Failure::Decode(detail) => detail.clone(),
            Failure::Join(e) => e.message(),
        }
    }
}

} // verus!
