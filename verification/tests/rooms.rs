use onitamalib::agent::{AiAgent, MoveRequest};
use onitamalib::coordinator::Coordinator;
use onitamalib::engine::{Position, Submission, Verdict};
use onitamalib::error::{Failure, JoinError, MoveError};
use onitamalib::player::Player;
use onitamalib::room::{Message, Mover, Outbound, Room, Seat};
use onitamalib::view::GameView;

const RED: u64 = 101;
const BLUE: u64 = 202;
const STRANGER: u64 = 303;
const SALTS: u128 = 1 << 64;

fn opening() -> Position<u32> {
    Position { state: 0, turn: Some(Player::Red) }
}

fn blue_opens() -> Position<u32> {
    Position { state: 0, turn: Some(Player::Blue) }
}

// The board counts the moves made; a move must name the next count; the
// sides alternate; the game ends when the count reaches four.
fn rule(position: Position<u32>, game_move: u32) -> Verdict<u32> {
    if position.turn.is_none() {
        Verdict::Rejected("the game is over".to_string())
    } else if game_move != position.state + 1 {
        Verdict::Rejected(format!("expected {}", position.state + 1))
    } else {
        let turn = if game_move >= 4 { None } else { position.turn.map(|side| side.invert()) };
        Verdict::Accepted(Position { state: game_move, turn })
    }
}

fn play(position: Position<u32>, game_move: u32) -> Submission<u32, u32> {
    Submission::Move { game_move, verdict: rule(position, game_move) }
}

fn view_to(to: u64, state: u32) -> Outbound<u32> {
    Outbound::Deliver { to, message: Message::View(GameView { state }) }
}

fn error_to(to: u64, failure: Failure) -> Outbound<u32> {
    Outbound::Deliver { to, message: Message::Error(failure) }
}

fn views_of(effects: &[Outbound<u32>], conn: u64) -> Vec<u32> {
    let mut seen = Vec::new();
    for effect in effects {
        if let Outbound::Deliver { to, message: Message::View(view) } = effect {
            if *to == conn {
                seen.push(view.state);
            }
        }
    }
    seen
}

#[test]
fn room_waits_for_the_second_seat() {
    let mut room: Room<u32, u32> = Room::open(7, RED, opening());
    assert!(!room.is_active());
    assert_eq!(room.blue, Seat::Open);
    assert_eq!(room.seat_of(Mover::Connection(RED)), Some(Player::Red));
    assert_eq!(room.seat_of(Mover::Connection(BLUE)), None);
    assert_eq!(room.seat_of(Mover::Computer), None);
    // Nobody moves in a waiting room.
    let before = room;
    assert_eq!(
        room.try_move(Mover::Connection(RED), 1, rule(opening(), 1)),
        Err(MoveError::NotYourTurn)
    );
    assert_eq!(room, before);
}

#[test]
fn room_join_activates_and_shows_the_board_to_both() {
    let mut room: Room<u32, u32> = Room::open(7, RED, opening());
    assert_eq!(room.join(BLUE), Ok(vec![view_to(RED, 0), view_to(BLUE, 0)]));
    assert!(room.is_active());
    assert_eq!(room.seat_of(Mover::Connection(BLUE)), Some(Player::Blue));
    assert_eq!(room.current_view(), GameView { state: 0 });
}

#[test]
fn room_third_join_is_refused() {
    let mut room: Room<u32, u32> = Room::open(7, RED, opening());
    room.join(BLUE).unwrap();
    let before = room;
    assert_eq!(room.join(STRANGER), Err(JoinError::RoomFull));
    assert_eq!(room, before);
    assert_eq!(room.join(BLUE), Err(JoinError::RoomFull));
    assert_eq!(room.red, RED);
    assert_eq!(room.blue, Seat::Human(BLUE));
}

#[test]
fn room_move_in_turn_is_shown_to_both() {
    let mut room: Room<u32, u32> = Room::open(7, RED, opening());
    room.join(BLUE).unwrap();
    assert_eq!(
        room.try_move(Mover::Connection(RED), 1, rule(room.session.position, 1)),
        Ok(vec![view_to(RED, 1), view_to(BLUE, 1)])
    );
    assert_eq!(room.session.last_move, Some(1));
    assert_eq!(
        room.submit(BLUE, play(room.session.position, 2)),
        vec![view_to(RED, 2), view_to(BLUE, 2)]
    );
}

#[test]
fn room_stranger_holds_no_turn() {
    let mut room: Room<u32, u32> = Room::open(7, RED, opening());
    room.join(BLUE).unwrap();
    let before = room;
    assert_eq!(
        room.submit(STRANGER, play(room.session.position, 1)),
        vec![error_to(STRANGER, Failure::Move(MoveError::NotYourTurn))]
    );
    assert_eq!(
        room.try_move(Mover::Computer, 1, rule(room.session.position, 1)),
        Err(MoveError::NotYourTurn)
    );
    assert_eq!(room, before);
}

#[test]
fn room_decode_failure_is_told_to_the_sender_only() {
    let mut room: Room<u32, u32> = Room::open(7, RED, opening());
    room.join(BLUE).unwrap();
    let before = room;
    // Blue does not hold the turn, but the payload never gets that far.
    assert_eq!(
        room.submit(BLUE, Submission::Malformed("unexpected end".to_string())),
        vec![error_to(BLUE, Failure::Decode("unexpected end".to_string()))]
    );
    assert_eq!(room, before);
}

#[test]
fn room_illegal_move_is_told_to_the_sender_only() {
    let mut room: Room<u32, u32> = Room::open(7, RED, opening());
    room.join(BLUE).unwrap();
    let before = room;
    assert_eq!(
        room.submit(RED, play(room.session.position, 3)),
        vec![error_to(RED, Failure::Move(MoveError::IllegalMove("expected 1".to_string())))]
    );
    assert_eq!(room, before);
}

#[test]
fn room_with_computer_asks_when_the_computer_opens() {
    let (room, effects): (Room<u32, u32>, _) =
        Room::open_with_computer(9, RED, AiAgent::HybridMonteCarlo, blue_opens());
    assert!(room.is_active());
    assert_eq!(room.seat_of(Mover::Computer), Some(Player::Blue));
    assert_eq!(
        effects,
        vec![
            Outbound::AiRequest {
                key: 9,
                request: MoveRequest { state: 0, agent: AiAgent::HybridMonteCarlo },
            },
            view_to(RED, 0),
        ]
    );
}

#[test]
fn room_with_computer_asks_after_each_human_move() {
    let (mut room, effects): (Room<u32, u32>, _) =
        Room::open_with_computer(9, RED, AiAgent::Alphabeta, opening());
    assert_eq!(effects, vec![view_to(RED, 0)]);
    assert_eq!(room.join(BLUE), Err(JoinError::RoomFull));
    assert_eq!(
        room.submit(RED, play(room.session.position, 1)),
        vec![
            view_to(RED, 1),
            Outbound::AiRequest { key: 9, request: MoveRequest { state: 1, agent: AiAgent::Alphabeta } },
        ]
    );
    // The human waits for the computer.
    assert_eq!(
        room.submit(RED, play(room.session.position, 2)),
        vec![error_to(RED, Failure::Move(MoveError::NotYourTurn))]
    );
    assert_eq!(
        room.try_move(Mover::Computer, 2, rule(room.session.position, 2)),
        Ok(vec![view_to(RED, 2)])
    );
}

#[test]
fn room_reset_shows_the_first_board_to_both() {
    let mut room: Room<u32, u32> = Room::open(7, RED, opening());
    room.join(BLUE).unwrap();
    room.submit(RED, play(room.session.position, 1));
    let first = room.reset(opening());
    assert_eq!(first, vec![view_to(RED, 0), view_to(BLUE, 0)]);
    let once = room;
    assert_eq!(room.session.last_move, None);
    assert_eq!(room.reset(opening()), first);
    assert_eq!(room, once);
    assert_eq!(room.blue, Seat::Human(BLUE));
}

// Both participants see the same boards in the order of the moves played,
// whatever was refused in between.
#[test]
fn room_views_reach_both_participants_in_the_order_of_the_moves() {
    let mut room: Room<u32, u32> = Room::open(7, RED, opening());
    let mut trace = room.join(BLUE).unwrap();
    let senders = [RED, RED, BLUE, STRANGER, BLUE, RED, BLUE, RED, BLUE];
    let moves = [1, 2, 2, 3, 9, 3, 4, 5, 5];
    for (sender, game_move) in senders.iter().zip(moves.iter()) {
        trace.extend(room.submit(*sender, play(room.session.position, *game_move)));
    }
    trace.extend(room.submit(RED, Submission::Malformed("noise".to_string())));
    assert_eq!(views_of(&trace, RED), vec![0, 1, 2, 3, 4]);
    assert_eq!(views_of(&trace, BLUE), vec![0, 1, 2, 3, 4]);
    assert_eq!(views_of(&trace, STRANGER), Vec::<u32>::new());
}

#[test]
fn coordinator_starts_empty() {
    let coordinator: Coordinator<u32, u32> = Coordinator::new();
    assert_eq!(coordinator.room_count(), 0);
    assert_eq!(coordinator.issued(), 0);
    assert!(!coordinator.contains(0));
    assert_eq!(coordinator.room(0), None);
}

#[test]
fn coordinator_keys_are_serial_number_and_salt() {
    let mut coordinator: Coordinator<u32, u32> = Coordinator::new();
    let first = coordinator.create_room_with_salt(RED, 5, opening());
    let second = coordinator.create_room_with_salt(RED, 5, opening());
    let (third, _) = coordinator.create_ai_room_with_salt(RED, u64::MAX, opening());
    assert_eq!(first, 5);
    assert_eq!(second, SALTS + 5);
    assert_eq!(third, 2 * SALTS + u64::MAX as u128);
    assert_eq!(coordinator.issued(), 3);
    assert_eq!(coordinator.room_count(), 3);
    assert_eq!(coordinator.room(second), Some(Room::open(second, RED, opening())));
}

#[test]
fn coordinator_random_keys_are_fresh_and_carry_the_serial_number() {
    let mut coordinator: Coordinator<u32, u32> = Coordinator::new();
    let mut keys = Vec::new();
    for serial in 0..64u128 {
        let key = if serial % 2 == 0 {
            coordinator.create_room(RED, opening())
        } else {
            coordinator.create_ai_room(RED, opening()).0
        };
        assert_eq!(key / SALTS, serial);
        assert!(!keys.contains(&key));
        assert!(coordinator.contains(key));
        assert_eq!(coordinator.room(key).unwrap().key, key);
        keys.push(key);
    }
    assert_eq!(coordinator.room_count(), 64);
    assert_eq!(coordinator.issued(), 64);
}

// A networked room is created and joined, Red plays a legal move, and both
// connections get the new view and no error.
#[test]
fn coordinator_create_join_and_move() {
    let mut coordinator: Coordinator<u32, u32> = Coordinator::new();
    let key = coordinator.create_room(RED, opening());
    assert!(coordinator.contains(key));
    assert!(!coordinator.room(key).unwrap().is_active());
    assert_eq!(coordinator.join_room(key, BLUE), Ok(vec![view_to(RED, 0), view_to(BLUE, 0)]));
    assert!(coordinator.room(key).unwrap().is_active());
    let position = coordinator.room(key).unwrap().session.position;
    assert_eq!(
        coordinator.submit_move(key, RED, play(position, 1)),
        vec![view_to(RED, 1), view_to(BLUE, 1)]
    );
    assert_eq!(coordinator.room(key).unwrap().session.snapshot(), 1);
    assert_eq!(coordinator.room(key).unwrap().session.current_turn(), Some(Player::Blue));
}

// A join with an unknown key is answered with RoomNotFound and changes
// nothing.
#[test]
fn coordinator_join_with_unknown_key() {
    let mut coordinator: Coordinator<u32, u32> = Coordinator::new();
    let key = coordinator.create_room_with_salt(RED, 1, opening());
    let room = coordinator.room(key);
    assert_eq!(coordinator.join_room(key + 1, BLUE), Err(JoinError::RoomNotFound));
    assert_eq!(coordinator.join_room(SALTS, BLUE), Err(JoinError::RoomNotFound));
    assert_eq!(coordinator.room_count(), 1);
    assert_eq!(coordinator.room(key), room);
    assert_eq!(coordinator.issued(), 1);
}

// A move of the side that does not hold the turn is answered with
// NotYourTurn; the board stays and no view goes out.
#[test]
fn coordinator_move_out_of_turn() {
    let mut coordinator: Coordinator<u32, u32> = Coordinator::new();
    let key = coordinator.create_room_with_salt(RED, 1, opening());
    coordinator.join_room(key, BLUE).unwrap();
    let before = coordinator.room(key);
    let position = before.unwrap().session.position;
    assert_eq!(
        coordinator.submit_move(key, BLUE, play(position, 1)),
        vec![error_to(BLUE, Failure::Move(MoveError::NotYourTurn))]
    );
    assert_eq!(coordinator.room(key), before);
}

// One participant leaves in the middle of a game: the room is closed, and a
// later join under its key finds no room.
#[test]
fn coordinator_disconnect_closes_the_room() {
    let mut coordinator: Coordinator<u32, u32> = Coordinator::new();
    let key = coordinator.create_room_with_salt(RED, 1, opening());
    coordinator.join_room(key, BLUE).unwrap();
    coordinator.submit_move(key, RED, play(opening(), 1));
    coordinator.close_room(key);
    assert!(!coordinator.contains(key));
    assert_eq!(coordinator.room_count(), 0);
    assert_eq!(coordinator.join_room(key, STRANGER), Err(JoinError::RoomNotFound));
    assert_eq!(
        coordinator.submit_move(key, BLUE, play(opening(), 1)),
        vec![error_to(BLUE, Failure::Join(JoinError::RoomNotFound))]
    );
    // The key does not come back with the next room.
    let next = coordinator.create_room_with_salt(RED, 1, opening());
    assert!(next != key);
    assert_eq!(coordinator.join_room(key, STRANGER), Err(JoinError::RoomNotFound));
}

#[test]
fn coordinator_close_is_idempotent() {
    let mut coordinator: Coordinator<u32, u32> = Coordinator::new();
    let kept = coordinator.create_room_with_salt(RED, 1, opening());
    let gone = coordinator.create_room_with_salt(BLUE, 2, opening());
    coordinator.close_room(gone);
    coordinator.close_room(gone);
    coordinator.close_room(12345);
    assert_eq!(coordinator.room_count(), 1);
    assert_eq!(coordinator.room(kept), Some(Room::open(kept, RED, opening())));
}

#[test]
fn coordinator_full_room_stays_full() {
    let mut coordinator: Coordinator<u32, u32> = Coordinator::new();
    let key = coordinator.create_room_with_salt(RED, 1, opening());
    coordinator.join_room(key, BLUE).unwrap();
    assert_eq!(coordinator.join_room(key, STRANGER), Err(JoinError::RoomFull));
    coordinator.submit_move(key, RED, play(opening(), 1));
    coordinator.reset_room(key, RED, opening());
    assert_eq!(coordinator.join_room(key, STRANGER), Err(JoinError::RoomFull));
    let room = coordinator.room(key).unwrap();
    assert_eq!(room.red, RED);
    assert_eq!(room.blue, Seat::Human(BLUE));
}

#[test]
fn coordinator_rooms_do_not_touch_each_other() {
    let mut coordinator: Coordinator<u32, u32> = Coordinator::new();
    let one = coordinator.create_room_with_salt(RED, 1, opening());
    let two = coordinator.create_room_with_salt(RED, 1, opening());
    coordinator.join_room(one, BLUE).unwrap();
    coordinator.join_room(two, STRANGER).unwrap();
    let untouched = coordinator.room(two);
    assert_eq!(
        coordinator.submit_move(one, RED, play(opening(), 1)),
        vec![view_to(RED, 1), view_to(BLUE, 1)]
    );
    assert_eq!(coordinator.room(two), untouched);
    // The same connection holds the turn in the second room.
    assert_eq!(
        coordinator.submit_move(two, RED, play(opening(), 1)),
        vec![view_to(RED, 1), view_to(STRANGER, 1)]
    );
}

#[test]
fn coordinator_decode_failure_leaves_the_room_alone() {
    let mut coordinator: Coordinator<u32, u32> = Coordinator::new();
    let key = coordinator.create_room_with_salt(RED, 1, opening());
    coordinator.join_room(key, BLUE).unwrap();
    let before = coordinator.room(key);
    assert_eq!(
        coordinator.submit_move(key, BLUE, Submission::Malformed("not a move".to_string())),
        vec![error_to(BLUE, Failure::Decode("not a move".to_string()))]
    );
    assert_eq!(coordinator.room(key), before);
}

#[test]
fn coordinator_closes_a_room_when_the_game_ends() {
    let mut coordinator: Coordinator<u32, u32> = Coordinator::new();
    let key = coordinator.create_room_with_salt(RED, 1, opening());
    coordinator.join_room(key, BLUE).unwrap();
    let mut senders = [RED, BLUE].iter().cycle();
    for game_move in 1..=3 {
        let position = coordinator.room(key).unwrap().session.position;
        coordinator.submit_move(key, *senders.next().unwrap(), play(position, game_move));
        assert!(coordinator.contains(key));
    }
    let position = coordinator.room(key).unwrap().session.position;
    assert_eq!(
        coordinator.submit_move(key, BLUE, play(position, 4)),
        vec![view_to(RED, 4), view_to(BLUE, 4)]
    );
    assert!(!coordinator.contains(key));
    assert_eq!(coordinator.join_room(key, STRANGER), Err(JoinError::RoomNotFound));
}

#[test]
fn coordinator_ai_room_is_active_at_once() {
    let mut coordinator: Coordinator<u32, u32> = Coordinator::new();
    let (key, effects) = coordinator.create_ai_room_with_salt(RED, 3, blue_opens());
    assert_eq!(
        effects,
        vec![
            Outbound::AiRequest { key, request: MoveRequest { state: 0, agent: AiAgent::Alphabeta } },
            view_to(RED, 0),
        ]
    );
    assert_eq!(coordinator.room(key).unwrap().blue, Seat::Computer(AiAgent::Alphabeta));
    assert_eq!(coordinator.join_room(key, BLUE), Err(JoinError::RoomFull));
    // The human cannot move before the computer has.
    assert_eq!(
        coordinator.submit_move(key, RED, play(blue_opens(), 1)),
        vec![error_to(RED, Failure::Move(MoveError::NotYourTurn))]
    );
    assert_eq!(
        coordinator.computer_move(key, 1, rule(blue_opens(), 1)),
        vec![view_to(RED, 1)]
    );
    let position = coordinator.room(key).unwrap().session.position;
    assert_eq!(
        coordinator.submit_move(key, RED, play(position, 2)),
        vec![
            view_to(RED, 2),
            Outbound::AiRequest { key, request: MoveRequest { state: 2, agent: AiAgent::Alphabeta } },
        ]
    );
}

#[test]
fn coordinator_refused_computer_move_is_silent() {
    let mut coordinator: Coordinator<u32, u32> = Coordinator::new();
    let (key, _) = coordinator.create_ai_room_with_salt(RED, 3, opening());
    let before = coordinator.room(key);
    // Not the computer's turn.
    assert_eq!(coordinator.computer_move(key, 1, rule(opening(), 1)), vec![]);
    assert_eq!(coordinator.room(key), before);
    coordinator.submit_move(key, RED, play(opening(), 1));
    let position = coordinator.room(key).unwrap().session.position;
    let before = coordinator.room(key);
    // An illegal move of the computer.
    assert_eq!(coordinator.computer_move(key, 7, rule(position, 7)), vec![]);
    assert_eq!(coordinator.room(key), before);
    // A room that is gone, and a room between two people.
    assert_eq!(coordinator.computer_move(key + 1, 2, rule(position, 2)), vec![]);
    let other = coordinator.create_room_with_salt(RED, 1, blue_opens());
    coordinator.join_room(other, BLUE).unwrap();
    assert_eq!(coordinator.computer_move(other, 1, rule(blue_opens(), 1)), vec![]);
}

#[test]
fn coordinator_computer_move_can_end_the_game() {
    let mut coordinator: Coordinator<u32, u32> = Coordinator::new();
    let last = Position { state: 3, turn: Some(Player::Blue) };
    let (key, _) = coordinator.create_ai_room_with_salt(RED, 3, last);
    assert_eq!(coordinator.computer_move(key, 4, rule(last, 4)), vec![view_to(RED, 4)]);
    assert!(!coordinator.contains(key));
}

#[test]
fn coordinator_reset_room_reaches_every_participant() {
    let mut coordinator: Coordinator<u32, u32> = Coordinator::new();
    let key = coordinator.create_room_with_salt(RED, 1, opening());
    coordinator.join_room(key, BLUE).unwrap();
    coordinator.submit_move(key, RED, play(opening(), 1));
    assert_eq!(
        coordinator.reset_room(key, BLUE, opening()),
        vec![view_to(RED, 0), view_to(BLUE, 0)]
    );
    assert_eq!(coordinator.room(key).unwrap().session.position, opening());
    assert_eq!(coordinator.room(key).unwrap().session.last_move, None);
    assert_eq!(
        coordinator.reset_room(key + 1, BLUE, opening()),
        vec![error_to(BLUE, Failure::Join(JoinError::RoomNotFound))]
    );
}
