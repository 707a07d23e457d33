//! Game server library: user name rules, rooms and games, the requests a
//! client sends, the answers it gets, and the handlers that turn one into
//! the other.

pub mod constraint;
pub mod messages;
pub mod managers;
pub mod handlers;
