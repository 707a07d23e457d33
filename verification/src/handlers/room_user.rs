//! A user inside a room: sees its state, leaves it, and, as its admin,
//! closes it or starts its game.

use vstd::prelude::*;

use super::factory::{FactoryView, RequestHandlerFactory};
use super::game::GameHandlerView;
use super::menu::answers_only;
use super::{AnyHandler, Handler, HandlerView};
use crate::constraint::Username;
use crate::managers::game::GameView;
use crate::managers::room::{
    clone_users, without_user, RoomDataView, RoomID, RoomManagerView, RoomState, RoomView,
};
use crate::messages::requests::{Request, RequestInfo};
use crate::messages::responses::{
    answer, answer_then, RequestResult, RequestResultView, Response, ResponseView,
    INVALID_REQUEST,
};

verus! {

/// Why a room request is refused.
#[derive(Debug, PartialEq, Eq, Clone, Copy)]
pub enum Error {
    NotAdmin,
    UnknownRoomID(RoomID),
}

/// Takes the requests of a user inside room `room_id`.
pub struct RoomUserRequestHandler {
    room_id: RoomID,
    user: Username,
    is_admin: bool,
}

pub struct RoomUserView {
    pub user: Seq<char>,
    pub is_admin: bool,
    pub room_id: RoomID,
}

impl View for RoomUserRequestHandler {
    type V = RoomUserView;

    closed spec fn view(&self) -> RoomUserView {
        RoomUserView { user: self.user@, is_admin: self.is_admin, room_id: self.room_id }
    }
}

/// The requests a room user's handler takes.
pub open spec fn room_user_relevant(r: Request) -> bool {
    ||| r is LeaveRoom
    ||| r is RoomState
    ||| r is StartGame
    ||| r is CloseRoom
}

/// The rooms after `user` leaves room `id`: the user is taken out, and a
/// room left with no user is closed.
pub open spec fn rooms_after_leaving(rooms: RoomManagerView, id: RoomID, user: Seq<char>) -> RoomManagerView {
    if rooms.rooms.contains_key(id) {
        let left = without_user(rooms.rooms[id].users, user);
        if left.len() == 0 {
            RoomManagerView { rooms: rooms.rooms.remove(id), ..rooms }
        } else {
            RoomManagerView {
                rooms: rooms.rooms.insert(id, RoomView { users: left, ..rooms.rooms[id] }),
                ..rooms
            }
        }
    } else {
        rooms
    }
}

/// Leaving the room: back to the menu.
pub open spec fn leave_room_outcome(
    h: RoomUserView,
    pre: FactoryView,
    post: FactoryView,
    res: RequestResultView,
) -> bool {
    &&& post == FactoryView { rooms: rooms_after_leaving(pre.rooms, h.room_id, h.user), ..pre }
    &&& res == answer_then(ResponseView::LeaveRoom, HandlerView::Menu { user: h.user })
}

/// Asking for the room's state: a room that is gone is left, a room whose
/// game started sends the user on to the game, and otherwise the answer is
/// the room's state, name and users.
pub open spec fn room_state_outcome(
    h: RoomUserView,
    pre: FactoryView,
    post: FactoryView,
    res: RequestResultView,
) -> bool {
    let rooms = pre.rooms.rooms;
    if !rooms.contains_key(h.room_id) {
        leave_room_outcome(h, pre, post, res)
    } else if rooms[h.room_id].data.state == RoomState::InGame {
        answers_only(
            pre,
            post,
            res,
            answer_then(
                ResponseView::StartGame(Ok(())),
                HandlerView::Game(GameHandlerView { user: h.user, game_id: h.room_id }),
            ),
        )
    } else {
        answers_only(
            pre,
            post,
            res,
            answer(
                ResponseView::RoomState {
                    state: rooms[h.room_id].data.state,
                    name: rooms[h.room_id].data.name,
                    players: rooms[h.room_id].users,
                },
            ),
        )
    }
}

/// Closing the room: only its admin may, and then goes back to the menu.
pub open spec fn close_room_outcome(
    h: RoomUserView,
    pre: FactoryView,
    post: FactoryView,
    res: RequestResultView,
) -> bool {
    if !h.is_admin {
        answers_only(pre, post, res, answer(ResponseView::CloseRoom(Err(Error::NotAdmin))))
    } else {
        &&& post == FactoryView {
            rooms: RoomManagerView { rooms: pre.rooms.rooms.remove(h.room_id), ..pre.rooms },
            ..pre
        }
        &&& res == answer_then(ResponseView::CloseRoom(Ok(())), HandlerView::Menu { user: h.user })
    }
}

/// Starting the game: only the admin may; the room turns to its game and
/// the game starts with the room's users, unless it runs already; the
/// admin goes on to the game.
pub open spec fn start_game_outcome(
    h: RoomUserView,
    pre: FactoryView,
    post: FactoryView,
    res: RequestResultView,
) -> bool {
    let id = h.room_id;
    let rooms = pre.rooms.rooms;
    if !h.is_admin {
        answers_only(pre, post, res, answer(ResponseView::StartGame(Err(Error::NotAdmin))))
    } else if !rooms.contains_key(id) {
        answers_only(pre, post, res, answer(ResponseView::StartGame(Err(Error::UnknownRoomID(id)))))
    } else {
        let room = RoomView {
            data: RoomDataView { state: RoomState::InGame, ..rooms[id].data },
            ..rooms[id]
        };
        &&& post == FactoryView {
            rooms: RoomManagerView { rooms: rooms.insert(id, room), ..pre.rooms },
            games: if pre.games.contains_key(id) {
                pre.games
            } else {
                pre.games.insert(id, GameView { id, players: room.users.to_set() })
            },
        }
        &&& res == answer_then(
            ResponseView::StartGame(Ok(())),
            HandlerView::Game(GameHandlerView { user: h.user, game_id: id }),
        )
    }
}

/// What the handler `h` of a room user does with `request`.
pub open spec fn room_user_handles(
    h: RoomUserView,
    request: Request,
    pre: FactoryView,
    post: FactoryView,
    res: RequestResultView,
) -> bool {
    match request {
        Request::RoomState => room_state_outcome(h, pre, post, res),
        Request::CloseRoom => close_room_outcome(h, pre, post, res),
        Request::StartGame => start_game_outcome(h, pre, post, res),
        Request::LeaveRoom => leave_room_outcome(h, pre, post, res),
        _ => answers_only(pre, post, res, answer(ResponseView::Error(INVALID_REQUEST@))),
    }
}

impl Handler for RoomUserRequestHandler {
    open spec fn serves(&self, request: Request) -> bool {
        true
    }

    fn can_serve(&self, request_info: &RequestInfo) -> (b: bool) {
        true
    }

    fn relevant(&self, request_info: &RequestInfo) -> (b: bool)
        ensures
            b == room_user_relevant(request_info.data),
    {
        match &request_info.data {
            Request::LeaveRoom | Request::RoomState | Request::StartGame | Request::CloseRoom => true,
            _ => false,
        }
    }

    fn handle(&mut self, factory: &mut RequestHandlerFactory, request_info: &RequestInfo) -> (r:
        RequestResult)
        ensures
            final(self)@ == old(self)@,
            room_user_handles(old(self)@, request_info.data, old(factory)@, final(factory)@, r@),
    {
        match &request_info.data {
            Request::RoomState => self.room_state(factory),
            Request::CloseRoom => self.close_room(factory),
            Request::StartGame => self.start_game(factory),
            Request::LeaveRoom => self.leave_room(factory),
            _ => RequestResult::new_error(INVALID_REQUEST),
        }
    }
}

impl RoomUserRequestHandler {
    pub fn new(user: Username, is_admin: bool, room_id: RoomID) -> (h: RoomUserRequestHandler)
        ensures
            h@ == (RoomUserView { user: user@, is_admin, room_id }),
    {
        RoomUserRequestHandler { user, is_admin, room_id }
    }

    /// The user whose requests this handler takes.
    pub fn user(&self) -> (u: &Username)
        ensures
            u@ == self@.user,
    {
        &self.user
    }

    pub fn is_admin(&self) -> (b: bool)
        ensures
            b == self@.is_admin,
    {
        self.is_admin
    }

    pub fn room_id(&self) -> (id: RoomID)
        ensures
            id == self@.room_id,
    {
        self.room_id
    }

    /// Leaves the room, closing it when no one is left.
    pub fn leave_room(&self, factory: &mut RequestHandlerFactory) -> (r: RequestResult)
        requires
            old(factory).wf(),
        ensures
            final(factory).wf(),
            leave_room_outcome(self@, old(factory)@, final(factory)@, r@),
    {
        factory.room_manager.remove_user(self.room_id, &self.user);
        let empty = match factory.room_manager.room(self.room_id) {
            Some(room) => room.is_empty(),
            None => false,
        };
        if empty {
            factory.room_manager.delete_room(self.room_id);
        }
        proof {
            let pre = old(factory)@.rooms;
            if pre.rooms.contains_key(self.room_id) {
                if without_user(pre.rooms[self.room_id].users, self.user@).len() == 0 {
                    assert(final(factory)@.rooms.rooms =~= pre.rooms.remove(self.room_id));
                }
            } else {
                assert(final(factory)@.rooms.rooms =~= pre.rooms);
            }
        }
        let handler = factory.create_menu_request_handler(self.user.clone());
        RequestResult::new(Response::LeaveRoom, AnyHandler::Menu(handler))
    }

    /// The room's state, name and users.
    pub fn room_state(&self, factory: &mut RequestHandlerFactory) -> (r: RequestResult)
        requires
            old(factory).wf(),
        ensures
            final(factory).wf(),
            room_state_outcome(self@, old(factory)@, final(factory)@, r@),
    {
        let room = match factory.room_manager().room(self.room_id) {
            Some(room) => room,
            None => {
                return self.leave_room(factory);
            },
        };
        match room.room_data().state {
            RoomState::InGame => {
                let handler = factory.create_game_request_handler(self.user.clone(), self.room_id);
                return RequestResult::new(Response::StartGame(Ok(())), AnyHandler::Game(handler));
            },
            RoomState::Waiting => {},
        }
        RequestResult::without_handler(
            Response::RoomState {
                state: room.room_data().state,
                name: room.room_data().name.clone(),
                players: clone_users(room.users()),
            },
        )
    }

    /// Closes the room, for its admin only.
    pub fn close_room(&self, factory: &mut RequestHandlerFactory) -> (r: RequestResult)
        requires
            old(factory).wf(),
        ensures
            final(factory).wf(),
            close_room_outcome(self@, old(factory)@, final(factory)@, r@),
    {
        if !self.is_admin {
            return RequestResult::without_handler(Response::CloseRoom(Err(Error::NotAdmin)));
        }
        factory.room_manager.delete_room(self.room_id);
        let handler = factory.create_menu_request_handler(self.user.clone());
        RequestResult::new(Response::CloseRoom(Ok(())), AnyHandler::Menu(handler))
    }

    /// Starts the room's game, for its admin only.
    pub fn start_game(&self, factory: &mut RequestHandlerFactory) -> (r: RequestResult)
        requires
            old(factory).wf(),
        ensures
            final(factory).wf(),
            start_game_outcome(self@, old(factory)@, final(factory)@, r@),
    {
        if !self.is_admin {
            return RequestResult::without_handler(Response::StartGame(Err(Error::NotAdmin)));
        }
        factory.room_manager.set_state(self.room_id, RoomState::InGame);
        let room = match factory.room_manager.room(self.room_id) {
            Some(room) => room,
            None => {
                assert(final(factory)@.rooms.rooms =~= old(factory)@.rooms.rooms);
                return RequestResult::without_handler(
                    Response::StartGame(Err(Error::UnknownRoomID(self.room_id))),
                );
            },
        };
        assert(factory@.rooms.rooms.contains_key(self.room_id));
        assert(room@.data.room_id == self.room_id);
        let game_id = factory.game_manager.create_game(room).unwrap().id();
        let handler = factory.create_game_request_handler(self.user.clone(), game_id);
        RequestResult::new(Response::StartGame(Ok(())), AnyHandler::Game(handler))
    }
}

} // verus!
