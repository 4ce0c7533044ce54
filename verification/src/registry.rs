//! The coordinator as a mathematical value, and what holds of it at every
//! moment.

use vstd::prelude::*;
use crate::agent::AiAgent;
use crate::engine::{Position, Submission, Verdict};
use crate::error::{Failure, JoinError, MoveError};
use crate::room::{Message, Mover, Outbound, Room};
use crate::view::GameView;

verus! {

/// The number of salts: a key is a serial number times this, plus a salt.
pub const SALTS: u128 = 0x1_0000_0000_0000_0000;

/// The key made of a serial number and a salt.
pub open spec fn key_of(serial: nat, salt: u64) -> u128 {
    (serial * SALTS + salt) as u128
}

/// The serial number in a key.
pub open spec fn serial_of(key: u128) -> nat {
    (key / SALTS) as nat
}

/// The salt in a key.
pub open spec fn salt_of(key: u128) -> u64 {
    (key % SALTS) as u64
}

/// The strategy of the computer in the rooms that the coordinator creates:
/// exact search.
pub open spec fn house_agent() -> AiAgent {
    AiAgent::Alphabeta
}

/// The coordinator as a mathematical value: the rooms by key, and the number
/// of keys issued so far.
#[verifier::ext_equal]
pub struct Registry<S, M> {
    pub rooms: Map<u128, Room<S, M>>,
    pub issued: nat,
}

impl<S: Copy, M: Copy> Registry<S, M> {
    /// What holds of every coordinator: each room is registered under its own
    /// key, and every registered key carries a serial number that has been
    /// issued.
    pub open spec fn valid(self) -> bool {
        &&& self.rooms.dom().finite()
        &&& self.issued <= u64::MAX
        &&& forall|key: u128| #[trigger]
            self.rooms.contains_key(key) ==> self.rooms[key].key == key && serial_of(key)
                < self.issued
    }

    /// Whether the game in `room` has ended: nobody holds the turn.
    pub open spec fn over(room: Room<S, M>) -> bool {
        room.session.position.turn is None
    }

    /// The registry after a room changed from `before` to `after` by a move:
    /// the room is replaced, or removed if the move was played and ended the
    /// game.
    pub open spec fn settle(self, before: Room<S, M>, after: Room<S, M>, played: bool) -> Registry<
        S,
        M,
    > {
        if played && Self::over(after) {
            Registry { rooms: self.rooms.remove(before.key), ..self }
        } else {
            Registry { rooms: self.rooms.insert(before.key, after), ..self }
        }
    }

    /// The registry after `create_room_with_salt`.
    pub open spec fn created(self, creator: u64, salt: u64, initial: Position<S>) -> Registry<S, M> {
        let key = key_of(self.issued, salt);
        Registry {
            rooms: self.rooms.insert(key, Room::opened(key, creator, initial)),
            issued: self.issued + 1,
        }
    }

    /// The registry after `create_ai_room_with_salt`.
    pub open spec fn created_with_computer(
        self,
        creator: u64,
        salt: u64,
        initial: Position<S>,
    ) -> Registry<S, M> {
        let key = key_of(self.issued, salt);
        Registry {
            rooms: self.rooms.insert(
                key,
                Room::opened_with_computer(key, creator, house_agent(), initial),
            ),
            issued: self.issued + 1,
        }
    }

    /// What `join_room` answers, apart from the effects.
    pub open spec fn join_result(self, key: u128) -> Result<(), JoinError> {
        if !self.rooms.contains_key(key) {
            Err(JoinError::RoomNotFound)
        } else if self.rooms[key].active() {
            Err(JoinError::RoomFull)
        } else {
            Ok(())
        }
    }

    /// The registry after `join_room`.
    pub open spec fn joined(self, key: u128, conn: u64) -> Registry<S, M> {
        if self.join_result(key) is Ok {
            Registry { rooms: self.rooms.insert(key, self.rooms[key].joined(conn)), ..self }
        } else {
            self
        }
    }

    /// The registry after `close_room`.
    pub open spec fn closed(self, key: u128) -> Registry<S, M> {
        Registry { rooms: self.rooms.remove(key), ..self }
    }

    /// The registry after `submit_move`.
    pub open spec fn after_submit(self, key: u128, conn: u64, submission: Submission<S, M>) -> Registry<
        S,
        M,
    > {
        if !self.rooms.contains_key(key) {
            self
        } else {
            let room = self.rooms[key];
            match submission {
                Submission::Malformed(_) => self,
                Submission::Move { game_move, verdict } => self.settle(
                    room,
                    room.after_move(Mover::Connection(conn), game_move, verdict),
                    room.move_result(Mover::Connection(conn), verdict) is Ok,
                ),
            }
        }
    }

    /// What `submit_move` asks of the host.
    pub open spec fn submit_effects(self, key: u128, conn: u64, submission: Submission<S, M>) -> Seq<
        Outbound<S>,
    > {
        if !self.rooms.contains_key(key) {
            seq![
                Outbound::Deliver {
                    to: conn,
                    message: Message::Error(Failure::Join(JoinError::RoomNotFound)),
                },
            ]
        } else {
            self.rooms[key].submit_effects(conn, submission)
        }
    }

    /// The registry after `computer_move`.
    pub open spec fn after_computer_move(self, key: u128, game_move: M, verdict: Verdict<S>) -> Registry<
        S,
        M,
    > {
        if !self.rooms.contains_key(key) {
            self
        } else {
            let room = self.rooms[key];
            self.settle(
                room,
                room.after_move(Mover::Computer, game_move, verdict),
                room.move_result(Mover::Computer, verdict) is Ok,
            )
        }
    }

    /// What `computer_move` asks of the host. A move of the computer that is
    /// refused is reported to nobody.
    pub open spec fn computer_effects(self, key: u128, game_move: M, verdict: Verdict<S>) -> Seq<
        Outbound<S>,
    > {
        if self.rooms.contains_key(key) && self.rooms[key].move_result(Mover::Computer, verdict)
            is Ok {
            self.rooms[key].after_move(Mover::Computer, game_move, verdict).change_effects()
        } else {
            seq![]
        }
    }

    /// The registry after `reset_room`.
    pub open spec fn after_reset(self, key: u128, initial: Position<S>) -> Registry<S, M> {
        if !self.rooms.contains_key(key) {
            self
        } else {
            let room = self.rooms[key];
            Registry {
                rooms: self.rooms.insert(
                    key,
                    Room { session: room.session.after_reset(initial), ..room },
                ),
                ..self
            }
        }
    }

    /// What `reset_room` asks of the host.
    pub open spec fn reset_effects(self, key: u128, conn: u64, initial: Position<S>) -> Seq<
        Outbound<S>,
    > {
        if !self.rooms.contains_key(key) {
            seq![
                Outbound::Deliver {
                    to: conn,
                    message: Message::Error(Failure::Join(JoinError::RoomNotFound)),
                },
            ]
        } else {
            self.rooms[key].broadcast(GameView { state: initial.state })
        }
    }
}

/// One operation on the coordinator.
pub enum Operation<S, M> {
    /// `create_room_with_salt`
    Create { creator: u64, salt: u64, initial: Position<S> },
    /// `create_ai_room_with_salt`
    CreateWithComputer { creator: u64, salt: u64, initial: Position<S> },
    /// `join_room`
    Join { key: u128, conn: u64 },
    /// `close_room`
    Close { key: u128 },
    /// `submit_move`
    Submit { key: u128, conn: u64, submission: Submission<S, M> },
    /// `computer_move`
    ComputerMove { key: u128, game_move: M, verdict: Verdict<S> },
    /// `reset_room`
    Reset { key: u128, initial: Position<S> },
}

impl<S: Copy, M: Copy> Operation<S, M> {
    /// Whether the operation creates a room.
    pub open spec fn creates(self) -> bool {
        self is Create || self is CreateWithComputer
    }
}

impl<S: Copy, M: Copy> Registry<S, M> {
    /// The registry after one operation.
    pub open spec fn apply(self, op: Operation<S, M>) -> Registry<S, M> {
        match op {
            Operation::Create { creator, salt, initial } => self.created(creator, salt, initial),
            Operation::CreateWithComputer { creator, salt, initial } => self.created_with_computer(
                creator,
                salt,
                initial,
            ),
            Operation::Join { key, conn } => self.joined(key, conn),
            Operation::Close { key } => self.closed(key),
            Operation::Submit { key, conn, submission } => self.after_submit(key, conn, submission),
            Operation::ComputerMove { key, game_move, verdict } => self.after_computer_move(
                key,
                game_move,
                verdict,
            ),
            Operation::Reset { key, initial } => self.after_reset(key, initial),
        }
    }

    /// The registry after a series of operations, the first of them first.
    pub open spec fn run(self, ops: Seq<Operation<S, M>>) -> Registry<S, M>
        decreases ops.len(),
    {
        if ops.len() == 0 {
            self
        } else {
            self.run(ops.drop_last()).apply(ops.last())
        }
    }

    /// Whether `key` has been issued: its serial number is below the count.
    pub open spec fn has_issued(self, key: u128) -> bool {
        serial_of(key) < self.issued
    }
}

/// A key gives back the serial number and the salt that it was made of.
pub proof fn lemma_key_parts(serial: nat, salt: u64)
    requires
        serial <= u64::MAX,
    ensures
        serial_of(key_of(serial, salt)) == serial,
        salt_of(key_of(serial, salt)) == salt,
{
}

/// Keys made of different serial numbers differ, whatever their salts.
pub proof fn lemma_keys_differ(serial: nat, salt: u64, other_serial: nat, other_salt: u64)
    requires
        serial <= u64::MAX,
        other_serial <= u64::MAX,
        serial != other_serial,
    ensures
        key_of(serial, salt) != key_of(other_serial, other_salt),
{
    lemma_key_parts(serial, salt);
    lemma_key_parts(other_serial, other_salt);
}

/// One operation keeps a valid registry valid. It registers no key but the
/// one that it issues, and it never takes back an issue.
pub proof fn lemma_apply<S: Copy, M: Copy>(registry: Registry<S, M>, op: Operation<S, M>)
    requires
        registry.valid(),
        op.creates() ==> registry.issued < u64::MAX,
    ensures
        registry.apply(op).valid(),
        registry.apply(op).issued == registry.issued + (if op.creates() {
            1nat
        } else {
            0nat
        }),
        forall|key: u128|
            registry.has_issued(key) && !registry.rooms.contains_key(key)
                ==> !#[trigger] registry.apply(op).rooms.contains_key(key),
{
    match op {
        Operation::Create { creator, salt, initial } => {
            lemma_key_parts(registry.issued, salt);
        },
        Operation::CreateWithComputer { creator, salt, initial } => {
            lemma_key_parts(registry.issued, salt);
        },
        _ => {},
    }
}

/// A series of operations keeps a valid registry valid.
pub proof fn lemma_run_valid<S: Copy, M: Copy>(registry: Registry<S, M>, ops: Seq<Operation<S, M>>)
    requires
        registry.valid(),
        registry.issued + ops.len() <= u64::MAX,
    ensures
        registry.run(ops).valid(),
        registry.issued <= registry.run(ops).issued <= registry.issued + ops.len(),
    decreases ops.len(),
{
    if ops.len() > 0 {
        lemma_run_valid(registry, ops.drop_last());
        lemma_apply(registry.run(ops.drop_last()), ops.last());
    }
}

/// A key that was issued and is not registered is never registered again:
/// once a room is closed, nothing brings its key back, and no later room gets
/// the key of an earlier one.
pub proof fn lemma_closed_for_good<S: Copy, M: Copy>(
    registry: Registry<S, M>,
    ops: Seq<Operation<S, M>>,
    key: u128,
)
    requires
        registry.valid(),
        registry.issued + ops.len() <= u64::MAX,
        registry.has_issued(key),
        !registry.rooms.contains_key(key),
    ensures
        !registry.run(ops).rooms.contains_key(key),
        registry.run(ops).join_result(key) == Err::<(), JoinError>(JoinError::RoomNotFound),
    decreases ops.len(),
{
    if ops.len() > 0 {
        let before = registry.run(ops.drop_last());
        lemma_closed_for_good(registry, ops.drop_last(), key);
        lemma_run_valid(registry, ops.drop_last());
        lemma_apply(before, ops.last());
    }
}

/// Closing a room takes its key out of the registry, whatever the room was
/// doing, and leaves every other room as it was. Closing again changes
/// nothing.
pub proof fn lemma_close<S: Copy, M: Copy>(registry: Registry<S, M>, key: u128)
    ensures
        !registry.closed(key).rooms.contains_key(key),
        registry.closed(key).join_result(key) == Err::<(), JoinError>(JoinError::RoomNotFound),
        registry.closed(key).closed(key) == registry.closed(key),
        forall|other: u128|
            other != key ==> (#[trigger] registry.closed(key).rooms.contains_key(other)
                <==> registry.rooms.contains_key(other)),
        forall|other: u128|
            other != key && registry.rooms.contains_key(other) ==> #[trigger] registry.closed(
                key,
            ).rooms[other] == registry.rooms[other],
{
    assert(registry.closed(key).closed(key) =~= registry.closed(key));
}

/// One operation leaves the seats of every room that stays registered as
/// they were, except that a join fills an open second seat.
pub proof fn lemma_apply_keeps_seats<S: Copy, M: Copy>(
    registry: Registry<S, M>,
    op: Operation<S, M>,
    key: u128,
)
    requires
        registry.valid(),
        op.creates() ==> registry.issued < u64::MAX,
        registry.rooms.contains_key(key),
        registry.apply(op).rooms.contains_key(key),
    ensures
        registry.apply(op).rooms[key].red == registry.rooms[key].red,
        registry.rooms[key].active() ==> registry.apply(op).rooms[key].blue
            == registry.rooms[key].blue,
        registry.apply(op).rooms[key].occupancy() <= 2,
{
    match op {
        Operation::Create { creator, salt, initial } => {
            lemma_key_parts(registry.issued, salt);
        },
        Operation::CreateWithComputer { creator, salt, initial } => {
            lemma_key_parts(registry.issued, salt);
        },
        _ => {},
    }
}

/// An active room stays active, with the same participants, for as long as
/// it is registered: whatever happens, a further join under its key is
/// answered with `RoomFull`, or with `RoomNotFound` once the room is closed.
pub proof fn lemma_full_for_good<S: Copy, M: Copy>(
    registry: Registry<S, M>,
    ops: Seq<Operation<S, M>>,
    key: u128,
)
    requires
        registry.valid(),
        registry.issued + ops.len() <= u64::MAX,
        registry.rooms.contains_key(key),
        registry.rooms[key].active(),
    ensures
        registry.run(ops).join_result(key) is Err,
        registry.run(ops).rooms.contains_key(key) ==> {
            &&& registry.run(ops).rooms[key].red == registry.rooms[key].red
            &&& registry.run(ops).rooms[key].blue == registry.rooms[key].blue
            &&& registry.run(ops).join_result(key) == Err::<(), JoinError>(JoinError::RoomFull)
        },
    decreases ops.len(),
{
    if ops.len() > 0 {
        let before = registry.run(ops.drop_last());
        lemma_full_for_good(registry, ops.drop_last(), key);
        lemma_run_valid(registry, ops.drop_last());
        lemma_apply(before, ops.last());
        if before.rooms.contains_key(key) {
            if before.apply(ops.last()).rooms.contains_key(key) {
                lemma_apply_keeps_seats(before, ops.last(), key);
            }
        } else {
            assert(before.has_issued(key)) by {
                assert(registry.has_issued(key));
            }
        }
    }
}

/// Resetting a room twice to the same first position gives what resetting it
/// once gives, and shows the same views both times.
pub proof fn lemma_reset_room_idempotent<S: Copy, M: Copy>(
    registry: Registry<S, M>,
    key: u128,
    conn: u64,
    initial: Position<S>,
)
    ensures
        registry.after_reset(key, initial).after_reset(key, initial) == registry.after_reset(
            key,
            initial,
        ),
        registry.after_reset(key, initial).reset_effects(key, conn, initial)
            == registry.reset_effects(key, conn, initial),
{
    let once = registry.after_reset(key, initial);
    assert(once.after_reset(key, initial).rooms =~= once.rooms);
}

/// A join under a key that is not registered is answered with
/// `RoomNotFound`, and the registry stays as it was.
pub proof fn lemma_join_unknown<S: Copy, M: Copy>(registry: Registry<S, M>, key: u128, conn: u64)
    requires
        !registry.rooms.contains_key(key),
    ensures
        registry.join_result(key) == Err::<(), JoinError>(JoinError::RoomNotFound),
        registry.joined(key, conn) == registry,
{
}

/// A move of a connection whose side does not hold the turn is answered to
/// that connection with `NotYourTurn`, and the registry stays as it was: no
/// board changes and no view goes out.
pub proof fn lemma_submit_out_of_turn<S: Copy, M: Copy>(
    registry: Registry<S, M>,
    key: u128,
    conn: u64,
    game_move: M,
    verdict: Verdict<S>,
)
    requires
        registry.valid(),
        registry.rooms.contains_key(key),
        !registry.rooms[key].may_move(Mover::Connection(conn)),
    ensures
        registry.after_submit(key, conn, Submission::Move { game_move, verdict }) == registry,
        registry.submit_effects(key, conn, Submission::Move { game_move, verdict }) == seq![
            Outbound::<S>::Deliver {
                to: conn,
                message: Message::Error(Failure::Move(MoveError::NotYourTurn)),
            },
        ],
{
    let after = registry.after_submit(key, conn, Submission::Move { game_move, verdict });
    assert(after.rooms =~= registry.rooms);
}

} // verus!
