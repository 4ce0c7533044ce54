//! The coordinator: the registry of rooms and the operations on it.

use std::collections::HashMap;
use vstd::prelude::*;
use crate::agent::AiAgent;
use crate::engine::{Position, Submission, Verdict};
use crate::error::{Failure, JoinError};
use crate::random::random_u64;
use crate::registry::{key_of, salt_of, serial_of, Registry, SALTS};
use crate::room::{Message, Mover, Outbound, Room};

verus! {

broadcast use vstd::std_specs::hash::group_hash_axioms;

/// The registry of the rooms that are open, and the one place where rooms are
/// created, joined and closed.
///
/// A key is a serial number, which counts the rooms created so far, joined
/// with a salt drawn at random. No two rooms of one coordinator ever get the
/// same key, and the key of a closed room is never issued again.
#[derive(Debug)]
pub struct Coordinator<S, M> {
    rooms: HashMap<u128, Room<S, M>>,
    issued: u64,
}

impl<S: Copy, M: Copy> View for Coordinator<S, M> {
    type V = Registry<S, M>;

    closed spec fn view(&self) -> Registry<S, M> {
        Registry { rooms: self.rooms@, issued: self.issued as nat }
    }
}

impl<S: Copy, M: Copy> Coordinator<S, M> {
    /// A coordinator without rooms.
    pub fn new() -> (coordinator: Coordinator<S, M>)
        ensures
            coordinator@.rooms == Map::<u128, Room<S, M>>::empty(),
            coordinator@.issued == 0,
            coordinator@.valid(),
    {
        let coordinator = Coordinator { rooms: HashMap::new(), issued: 0 };
        assert(coordinator@.rooms =~= Map::<u128, Room<S, M>>::empty());
        coordinator
    }

    /// The number of keys issued so far.
    pub fn issued(&self) -> (count: u64)
        ensures
            count == self@.issued,
    {
        self.issued
    }

    /// The number of rooms that are open.
    pub fn room_count(&self) -> (count: usize)
        ensures
            count == self@.rooms.len(),
    {
        self.rooms.len()
    }

    /// Whether a room is registered under `key`.
    pub fn contains(&self, key: u128) -> (found: bool)
        ensures
            found == self@.rooms.contains_key(key),
    {
        self.rooms.contains_key(&key)
    }

    /// The room registered under `key`, if there is one.
    pub fn room(&self, key: u128) -> (found: Option<Room<S, M>>)
        ensures
            found == (if self@.rooms.contains_key(key) {
                Some(self@.rooms[key])
            } else {
                None
            }),
    {
        match self.rooms.get(&key) {
            Some(room) => Some(*room),
            None => None,
        }
    }

    /// Joins the next serial number with `salt` to a key, and counts it as
    /// issued.
    fn issue(&mut self, salt: u64) -> (key: u128)
        requires
            old(self)@.valid(),
            old(self).issued < u64::MAX,
        ensures
            key == key_of(old(self).issued as nat, salt),
            final(self).issued == old(self).issued + 1,
            final(self).rooms == old(self).rooms,
            serial_of(key) == old(self).issued,
            salt_of(key) == salt,
            final(self)@.valid(),
    {
        let key: u128 = (self.issued as u128) * SALTS + (salt as u128);
        self.issued = self.issued + 1;
        key
    }

    /// Creates a waiting room with `creator` in the first seat, under a key
    /// whose salt is drawn at random, and returns the key. Whatever salt was
    /// drawn, the outcome is that of `create_room_with_salt` for it.
    pub fn create_room(&mut self, creator: u64, initial: Position<S>) -> (key: u128)
        requires
            old(self)@.valid(),
            old(self)@.issued < u64::MAX,
        ensures
            key == key_of(old(self)@.issued, salt_of(key)),
            final(self)@ == old(self)@.created(creator, salt_of(key), initial),
            !old(self)@.rooms.contains_key(key),
            final(self)@.valid(),
    {
        self.create_room_with_salt(creator, random_u64(), initial)
    }

    /// Creates a waiting room with `creator` in the first seat and returns its
    /// key, which is made of the next serial number and `salt`. The key was
    /// never issued before.
    pub fn create_room_with_salt(&mut self, creator: u64, salt: u64, initial: Position<S>) -> (key:
        u128)
        requires
            old(self)@.valid(),
            old(self)@.issued < u64::MAX,
        ensures
            key == key_of(old(self)@.issued, salt),
            salt_of(key) == salt,
            final(self)@ == old(self)@.created(creator, salt, initial),
            !old(self)@.rooms.contains_key(key),
            final(self)@.valid(),
    {
        let key = self.issue(salt);
        self.rooms.insert(key, Room::open(key, creator, initial));
        assert(self@ =~= old(self)@.created(creator, salt, initial));
        key
    }

    /// Creates an active room in which `creator` plays the computer, under a
    /// key whose salt is drawn at random. Whatever salt was drawn, the outcome
    /// is that of `create_ai_room_with_salt` for it.
    pub fn create_ai_room(&mut self, creator: u64, initial: Position<S>) -> (created: (
        u128,
        Vec<Outbound<S>>,
    ))
        requires
            old(self)@.valid(),
            old(self)@.issued < u64::MAX,
        ensures
            created.0 == key_of(old(self)@.issued, salt_of(created.0)),
            final(self)@ == old(self)@.created_with_computer(creator, salt_of(created.0), initial),
            !old(self)@.rooms.contains_key(created.0),
            created.1@ == final(self)@.rooms[created.0].opening_effects(),
            final(self)@.valid(),
    {
        self.create_ai_room_with_salt(creator, random_u64(), initial)
    }

    /// Creates an active room in which `creator` plays the computer, and
    /// returns its key, made of the next serial number and `salt`. The effects
    /// are a request to the computer, if it holds the first turn, and then the
    /// first view for `creator`.
    pub fn create_ai_room_with_salt(&mut self, creator: u64, salt: u64, initial: Position<S>) -> (created:
        (u128, Vec<Outbound<S>>))
        requires
            old(self)@.valid(),
            old(self)@.issued < u64::MAX,
        ensures
            created.0 == key_of(old(self)@.issued, salt),
            salt_of(created.0) == salt,
            final(self)@ == old(self)@.created_with_computer(creator, salt, initial),
            !old(self)@.rooms.contains_key(created.0),
            created.1@ == final(self)@.rooms[created.0].opening_effects(),
            final(self)@.valid(),
    {
        let key = self.issue(salt);
        let (room, effects) = Room::open_with_computer(key, creator, AiAgent::Alphabeta, initial);
        self.rooms.insert(key, room);
        assert(self@ =~= old(self)@.created_with_computer(creator, salt, initial));
        (key, effects)
    }

    /// Admits `conn` to the room under `key`.
    ///
    /// The answer is `RoomNotFound` if no room is registered under `key`, and
    /// `RoomFull` if the room is active. In both cases nothing changes.
    /// Otherwise `conn` takes the second seat, the room becomes active, and
    /// the effects show the current view to both participants.
    pub fn join_room(&mut self, key: u128, conn: u64) -> (result: Result<Vec<Outbound<S>>, JoinError>)
        requires
            old(self)@.valid(),
        ensures
            final(self)@ == old(self)@.joined(key, conn),
            final(self)@.valid(),
            match result {
                Ok(effects) => {
                    &&& old(self)@.join_result(key) is Ok
                    &&& effects@ == final(self)@.rooms[key].broadcast(
                        final(self)@.rooms[key].session.view_now(),
                    )
                },
                Err(e) => old(self)@.join_result(key) == Err::<(), JoinError>(e),
            },
    {
        let mut room = match self.room(key) {
            Some(room) => room,
            None => {
                return Err(JoinError::RoomNotFound);
            },
        };
        match room.join(conn) {
            Ok(effects) => {
                self.rooms.insert(key, room);
                assert(self@ =~= old(self)@.joined(key, conn));
                Ok(effects)
            },
            Err(e) => Err(e),
        }
    }

    /// Closes the room under `key`: the key is no longer registered. Closing
    /// a key that is not registered changes nothing.
    pub fn close_room(&mut self, key: u128)
        requires
            old(self)@.valid(),
        ensures
            final(self)@ == old(self)@.closed(key),
            final(self)@.valid(),
    {
        self.rooms.remove(&key);
        assert(self@ =~= old(self)@.closed(key));
    }

    /// Puts `room`, as it is after a move, back under its key, or closes it
    /// if the move was played and ended the game.
    fn settle(&mut self, room: Room<S, M>, played: bool)
        requires
            old(self)@.valid(),
            old(self)@.rooms.contains_key(room.key),
        ensures
            final(self)@ == old(self)@.settle(old(self)@.rooms[room.key], room, played),
            final(self)@.valid(),
    {
        if played && room.session.current_turn().is_none() {
            self.rooms.remove(&room.key);
        } else {
            self.rooms.insert(room.key, room);
        }
        assert(self@ =~= old(self)@.settle(old(self)@.rooms[room.key], room, played));
    }

    /// Handles one inbound message of the connection `conn` for the room
    /// under `key`.
    ///
    /// If no room is registered under `key`, `conn` is told `RoomNotFound`.
    /// Otherwise the room handles the message. If a move was played and the
    /// game has ended with it, the room is closed once its effects, the last
    /// view among them, are handed back.
    pub fn submit_move(&mut self, key: u128, conn: u64, submission: Submission<S, M>) -> (effects: Vec<
        Outbound<S>,
    >)
        requires
            old(self)@.valid(),
        ensures
            final(self)@ == old(self)@.after_submit(key, conn, submission),
            effects@ == old(self)@.submit_effects(key, conn, submission),
            final(self)@.valid(),
    {
        let mut room = match self.room(key) {
            Some(room) => room,
            None => {
                let mut effects = Vec::new();
                effects.push(
                    Outbound::Deliver {
                        to: conn,
                        message: Message::Error(Failure::Join(JoinError::RoomNotFound)),
                    },
                );
                return effects;
            },
        };
        match submission {
            Submission::Malformed(detail) => {
                let mut effects = Vec::new();
                effects.push(
                    Outbound::Deliver { to: conn, message: Message::Error(Failure::Decode(detail)) },
                );
                effects
            },
            Submission::Move { game_move, verdict } => {
                match room.try_move(Mover::Connection(conn), game_move, verdict) {
                    Ok(effects) => {
                        self.settle(room, true);
                        effects
                    },
                    Err(e) => {
                        let mut effects = Vec::new();
                        effects.push(
                            Outbound::Deliver {
                                to: conn,
                                message: Message::Error(Failure::Move(e)),
                            },
                        );
                        assert(self@ =~= old(self)@.after_submit(key, conn, submission));
                        effects
                    },
                }
            },
        }
    }

    /// Plays the move that the computer answered for the room under `key`.
    ///
    /// If the move is played, the effects show the new view to the human
    /// participant, and the room is closed if the game has ended. A move for a
    /// key that is not registered, or one that is refused, changes nothing and
    /// has no effects: there is nobody to report it to.
    pub fn computer_move(&mut self, key: u128, game_move: M, verdict: Verdict<S>) -> (effects: Vec<
        Outbound<S>,
    >)
        requires
            old(self)@.valid(),
        ensures
            final(self)@ == old(self)@.after_computer_move(key, game_move, verdict),
            effects@ == old(self)@.computer_effects(key, game_move, verdict),
            final(self)@.valid(),
    {
        let mut room = match self.room(key) {
            Some(room) => room,
            None => {
                return Vec::new();
            },
        };
        match room.try_move(Mover::Computer, game_move, verdict) {
            Ok(effects) => {
                self.settle(room, true);
                effects
            },
            Err(_) => {
                assert(self@ =~= old(self)@.after_computer_move(key, game_move, verdict));
                Vec::new()
            },
        }
    }

    /// Puts the board of the room under `key` back to `initial`, at the
    /// request of `conn`, and shows the refreshed view to every human
    /// participant. If no room is registered under `key`, `conn` is told
    /// `RoomNotFound`.
    pub fn reset_room(&mut self, key: u128, conn: u64, initial: Position<S>) -> (effects: Vec<
        Outbound<S>,
    >)
        requires
            old(self)@.valid(),
        ensures
            final(self)@ == old(self)@.after_reset(key, initial),
            effects@ == old(self)@.reset_effects(key, conn, initial),
            final(self)@.valid(),
    {
        let mut room = match self.room(key) {
            Some(room) => room,
            None => {
                let mut effects = Vec::new();
                effects.push(
                    Outbound::Deliver {
                        to: conn,
                        message: Message::Error(Failure::Join(JoinError::RoomNotFound)),
                    },
                );
                return effects;
            },
        };
        let effects = room.reset(initial);
        self.rooms.insert(key, room);
        assert(self@ =~= old(self)@.after_reset(key, initial));
        effects
    }
}

} // verus!
