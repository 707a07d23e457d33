//! The server's shared state: rooms, games, logins and statistics.

pub mod game;
pub mod login;
pub mod room;
pub mod statistics;

pub use room::RoomManager;
