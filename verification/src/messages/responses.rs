//! What the server answers.

use vstd::prelude::*;

use crate::constraint::{names, Username};
use crate::handlers::{menu, room_user, AnyHandler, HandlerView};
use crate::managers::login;
use crate::managers::room::{Room, RoomState, RoomView};
use crate::managers::statistics::Highscores;

verus! {

/// The answer to a request that the current handler does not take.
pub const INVALID_REQUEST: &'static str = "Invalid request";

/// The answer to a request that the server does not serve yet.
pub const NOT_IMPLEMENTED: &'static str = "Not impl";

/// The server's answer to a request.
#[derive(Debug, PartialEq, Eq)]
pub enum Response {
    Error(String),
    Login(Result<(), login::Error>),
    Signup(Result<(), login::Error>),
    Logout,
    RoomList(Vec<Room>),
    PlayersInRoom(Result<Vec<Username>, menu::Error>),
    JoinRoom(Result<(), menu::Error>),
    CreateRoom,
    Highscores(Highscores),
    CloseRoom(Result<(), room_user::Error>),
    StartGame(Result<(), room_user::Error>),
    RoomState { state: RoomState, name: String, players: Vec<Username> },
    LeaveRoom,
    LeaveGame,
}

pub enum ResponseView {
    Error(Seq<char>),
    Login(Result<(), login::ErrorView>),
    Signup(Result<(), login::ErrorView>),
    Logout,
    RoomList(Seq<RoomView>),
    PlayersInRoom(Result<Seq<Seq<char>>, menu::Error>),
    JoinRoom(Result<(), menu::Error>),
    CreateRoom,
    Highscores(Seq<(Seq<char>, u32)>),
    CloseRoom(Result<(), room_user::Error>),
    StartGame(Result<(), room_user::Error>),
    RoomState { state: RoomState, name: Seq<char>, players: Seq<Seq<char>> },
    LeaveRoom,
    LeaveGame,
}

pub open spec fn login_result_view(r: Result<(), login::Error>) -> Result<(), login::ErrorView> {
    match r {
        Ok(_) => Ok(()),
        Err(e) => Err(e@),
    }
}

impl View for Response {
    type V = ResponseView;

    open spec fn view(&self) -> ResponseView {
        match self {
            Response::Error(m) => ResponseView::Error(m@),
            Response::Login(r) => ResponseView::Login(login_result_view(*r)),
            Response::Signup(r) => ResponseView::Signup(login_result_view(*r)),
            Response::Logout => ResponseView::Logout,
            Response::RoomList(rooms) => ResponseView::RoomList(rooms@.map_values(|r: Room| r@)),
            Response::PlayersInRoom(r) => ResponseView::PlayersInRoom(
                match r {
                    Ok(users) => Ok(names(users@)),
                    Err(e) => Err(*e),
                },
            ),
            Response::JoinRoom(r) => ResponseView::JoinRoom(*r),
            Response::CreateRoom => ResponseView::CreateRoom,
            Response::Highscores(h) => ResponseView::Highscores(
                h@.map_values(|p: (Username, u32)| (p.0@, p.1)),
            ),
            Response::CloseRoom(r) => ResponseView::CloseRoom(*r),
            Response::StartGame(r) => ResponseView::StartGame(*r),
            Response::RoomState { state, name, players } => ResponseView::RoomState {
                state: *state,
                name: name@,
                players: names(players@),
            },
            Response::LeaveRoom => ResponseView::LeaveRoom,
            Response::LeaveGame => ResponseView::LeaveGame,
        }
    }
}

impl Response {
    /// An error answer carrying `msg`.
    pub fn new_error(msg: &str) -> (r: Response)
        ensures
            r@ == ResponseView::Error(msg@),
    {
        Response::Error(msg.to_owned())
    }
}

/// A handler's answer to a request, and the handler that takes the next
/// requests of this client, when it changes.
pub struct RequestResult {
    pub response: Response,
    pub new_handler: Option<AnyHandler>,
}

pub struct RequestResultView {
    pub response: ResponseView,
    pub new_handler: Option<HandlerView>,
}

impl View for RequestResult {
    type V = RequestResultView;

    open spec fn view(&self) -> RequestResultView {
        RequestResultView {
            response: self.response@,
            new_handler: match self.new_handler {
                Some(h) => Some(h@),
                None => None,
            },
        }
    }
}

/// The answer `response` with no change of handler.
pub open spec fn answer(response: ResponseView) -> RequestResultView {
    RequestResultView { response, new_handler: None }
}

/// The answer `response`, after which `next` takes the client's requests.
pub open spec fn answer_then(response: ResponseView, next: HandlerView) -> RequestResultView {
    RequestResultView { response, new_handler: Some(next) }
}

impl RequestResult {
    pub fn new(response: Response, new_handler: AnyHandler) -> (r: RequestResult)
        ensures
            r@ == answer_then(response@, new_handler@),
    {
        RequestResult { response, new_handler: Some(new_handler) }
    }

    pub fn without_handler(response: Response) -> (r: RequestResult)
        ensures
            r@ == answer(response@),
    {
        RequestResult { response, new_handler: None }
    }

    pub fn new_error(msg: &str) -> (r: RequestResult)
        ensures
            r@ == answer(ResponseView::Error(msg@)),
    {
        RequestResult::without_handler(Response::new_error(msg))
    }
}

} // verus!
