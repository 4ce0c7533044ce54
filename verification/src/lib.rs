//! Session coordination for a two-player, turn-based board game.
//!
//! The crate holds the decisions of a game server and of the two in-page game
//! modes: who may move, what a move changes, which participant is told what and
//! in which order, and how rooms are created, joined and closed. The rules of
//! the game itself are not part of it: every operation that needs them takes
//! the rule engine's answer as a plain value.

pub mod agent;
pub mod coordinator;
pub mod delivery;
pub mod effect;
pub mod engine;
pub mod error;
pub mod local;
pub mod player;
mod random;
pub mod registry;
pub mod room;
pub mod session;
pub mod singleplayer;
pub mod view;
