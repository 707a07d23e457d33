//! What a client asks of the server.

use vstd::prelude::*;

use crate::managers::room::RoomID;

verus! {

/// A client's request.
#[derive(Debug, PartialEq, Eq)]
pub enum Request {
    Login { username: String, password: String },
    Signup { username: String, password: String },
    JoinRoom(RoomID),
    CreateRoom { name: String, max_users: usize },
    PersonalStats,
    Highscores,
    Logout,
    RoomList,
    CloseRoom,
    StartGame,
    RoomState,
    LeaveRoom,
    LeaveGame,
    GameResult,
}

/// A request as it reaches a handler.
#[derive(Debug)]
pub struct RequestInfo {
    pub data: Request,
}

impl RequestInfo {
    pub fn new(data: Request) -> (r: RequestInfo)
        ensures
            r.data == data,
    {
        RequestInfo { data }
    }
}

} // verus!
