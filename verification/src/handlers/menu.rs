//! The menu: a logged-in user lists, creates and joins rooms.

use vstd::prelude::*;

use super::factory::{FactoryView, RequestHandlerFactory};
use super::room_user::RoomUserView;
use super::{AnyHandler, Handler, HandlerView};
use crate::constraint::{names, Username};
use crate::managers::room::{
    lists_rooms, Room, RoomDataView, RoomID, RoomManagerView, RoomState, RoomView,
};
use crate::messages::requests::{Request, RequestInfo};
use crate::messages::responses::{
    answer, answer_then, RequestResult, RequestResultView, Response, ResponseView,
    INVALID_REQUEST,
};

verus! {

/// The answer to a room creation once every room id has been handed out.
pub const NO_ROOM_ID_LEFT: &'static str = "no room id is left";

/// Why a menu request is refused.
#[derive(Debug, PartialEq, Eq, Clone, Copy)]
pub enum Error {
    NoGamesPlayed,
    QuestionAlreadyExists,
    UnknownRoomID(RoomID),
    RoomFull,
    RoomInGame,
    UserAlreadyInRoom,
}

/// Takes the requests of a logged-in user who is in no room.
pub struct MenuRequestHandler {
    user: Username,
}

impl View for MenuRequestHandler {
    type V = Seq<char>;

    closed spec fn view(&self) -> Seq<char> {
        self.user@
    }
}

/// The requests the menu takes.
pub open spec fn menu_relevant(r: Request) -> bool {
    ||| r is CreateRoom
    ||| r is RoomList
    ||| r is JoinRoom
    ||| r is PersonalStats
    ||| r is Highscores
    ||| r is Logout
}

/// The menu requests whose work the server does not do yet: logging out
/// (there is neither a logout nor a login stage to go back to) and the
/// statistics (none are kept).
pub open spec fn menu_not_served(r: Request) -> bool {
    r is Logout || r is PersonalStats || r is Highscores
}

/// The state stays as it was and the answer is `expected`.
pub open spec fn answers_only(
    pre: FactoryView,
    post: FactoryView,
    res: RequestResultView,
    expected: RequestResultView,
) -> bool {
    post == pre && res == expected
}

/// `user` joining room `id`: refused when there is no such room, when it is
/// full, when its game has started, or when the user is in it already;
/// otherwise the user is added last and goes on to the room's handler, not
/// as its admin.
pub open spec fn join_room_outcome(
    user: Seq<char>,
    id: RoomID,
    pre: FactoryView,
    post: FactoryView,
    res: RequestResultView,
) -> bool {
    let rooms = pre.rooms.rooms;
    let refused = |e: Error| answers_only(pre, post, res, answer(ResponseView::JoinRoom(Err(e))));
    if !rooms.contains_key(id) {
        refused(Error::UnknownRoomID(id))
    } else if rooms[id].users.len() >= rooms[id].data.max_users {
        refused(Error::RoomFull)
    } else if rooms[id].data.state == RoomState::InGame {
        refused(Error::RoomInGame)
    } else if rooms[id].users.contains(user) {
        refused(Error::UserAlreadyInRoom)
    } else {
        &&& post == FactoryView {
            rooms: RoomManagerView {
                rooms: rooms.insert(id, RoomView { users: rooms[id].users.push(user), ..rooms[id] }),
                ..pre.rooms
            },
            ..pre
        }
        &&& res == answer_then(
            ResponseView::JoinRoom(Ok(())),
            HandlerView::RoomUser(RoomUserView { user, is_admin: false, room_id: id }),
        )
    }
}

/// `user` opening a room named `name` for `max_users` users: it gets the
/// next id, the user is its only member and goes on to its handler as admin.
/// Once every id has been handed out, nothing changes and the answer is an
/// error.
pub open spec fn create_room_outcome(
    user: Seq<char>,
    name: Seq<char>,
    max_users: usize,
    pre: FactoryView,
    post: FactoryView,
    res: RequestResultView,
) -> bool {
    let id = pre.rooms.next_id;
    if id == RoomID::MAX {
        answers_only(pre, post, res, answer(ResponseView::Error(NO_ROOM_ID_LEFT@)))
    } else {
        &&& post == FactoryView {
            rooms: RoomManagerView {
                rooms: pre.rooms.rooms.insert(
                    id,
                    RoomView {
                        data: RoomDataView {
                            room_id: id,
                            name,
                            max_users,
                            state: RoomState::Waiting,
                        },
                        users: seq![user],
                    },
                ),
                next_id: (id + 1) as RoomID,
            },
            ..pre
        }
        &&& res == answer_then(
            ResponseView::CreateRoom,
            HandlerView::RoomUser(RoomUserView { user, is_admin: true, room_id: id }),
        )
    }
}

/// Listing the rooms: every room once, nothing changed.
pub open spec fn room_list_outcome(pre: FactoryView, post: FactoryView, res: RequestResultView) -> bool {
    &&& post == pre
    &&& res.new_handler is None
    &&& res.response matches ResponseView::RoomList(rooms) && lists_rooms(rooms, pre.rooms.rooms)
}

/// Listing the users of room `id`, nothing changed.
pub open spec fn players_in_room_outcome(
    id: RoomID,
    pre: FactoryView,
    post: FactoryView,
    res: RequestResultView,
) -> bool {
    answers_only(
        pre,
        post,
        res,
        answer(
            ResponseView::PlayersInRoom(
                if pre.rooms.rooms.contains_key(id) {
                    Ok(pre.rooms.rooms[id].users)
                } else {
                    Err(Error::UnknownRoomID(id))
                },
            ),
        ),
    )
}

/// What the menu of `user` does with `request`.
pub open spec fn menu_handles(
    user: Seq<char>,
    request: Request,
    pre: FactoryView,
    post: FactoryView,
    res: RequestResultView,
) -> bool {
    match request {
        Request::JoinRoom(id) => join_room_outcome(user, id, pre, post, res),
        Request::CreateRoom { name, max_users } => create_room_outcome(
            user,
            name@,
            max_users,
            pre,
            post,
            res,
        ),
        // Not served: see `menu_not_served`.
        Request::PersonalStats | Request::Highscores | Request::Logout => false,
        Request::RoomList => room_list_outcome(pre, post, res),
        _ => answers_only(pre, post, res, answer(ResponseView::Error(INVALID_REQUEST@))),
    }
}

impl Handler for MenuRequestHandler {
    open spec fn serves(&self, request: Request) -> bool {
        !menu_not_served(request)
    }

    fn can_serve(&self, request_info: &RequestInfo) -> (b: bool) {
        match &request_info.data {
            Request::Logout | Request::PersonalStats | Request::Highscores => false,
            _ => true,
        }
    }

    fn relevant(&self, request_info: &RequestInfo) -> (b: bool)
        ensures
            b == menu_relevant(request_info.data),
    {
        match &request_info.data {
            Request::CreateRoom { .. } | Request::RoomList | Request::JoinRoom(_)
            | Request::PersonalStats | Request::Highscores | Request::Logout => true,
            _ => false,
        }
    }

    fn handle(&mut self, factory: &mut RequestHandlerFactory, request_info: &RequestInfo) -> (r:
        RequestResult)
        ensures
            final(self)@ == old(self)@,
            menu_handles(old(self)@, request_info.data, old(factory)@, final(factory)@, r@),
    {
        match &request_info.data {
            Request::JoinRoom(id) => self.join_room(factory, *id),
            Request::CreateRoom { name, max_users } => self.create_room(
                factory,
                name.clone(),
                *max_users,
            ),
            Request::PersonalStats | Request::Highscores | Request::Logout => vstd::pervasive::unreached(),
            Request::RoomList => self.get_rooms(factory),
            _ => RequestResult::new_error(INVALID_REQUEST),
        }
    }
}

impl MenuRequestHandler {
    pub fn new(user: Username) -> (h: MenuRequestHandler)
        ensures
            h@ == user@,
    {
        MenuRequestHandler { user }
    }

    /// The user whose requests this handler takes.
    pub fn user(&self) -> (u: &Username)
        ensures
            u@ == self@,
    {
        &self.user
    }

    /// Copies of all rooms.
    pub fn get_rooms(&self, factory: &RequestHandlerFactory) -> (r: RequestResult)
        requires
            factory.wf(),
        ensures
            room_list_outcome(factory@, factory@, r@),
    {
        let rooms = factory.room_manager().rooms();
        RequestResult::without_handler(Response::RoomList(rooms))
    }

    /// The users of room `id`.
    pub fn get_players_in_room(&self, factory: &RequestHandlerFactory, id: RoomID) -> (r:
        RequestResult)
        ensures
            players_in_room_outcome(id, factory@, factory@, r@),
    {
        let users = match factory.room_manager().room(id) {
            Some(room) => Ok(crate::managers::room::clone_users(room.users())),
            None => Err(Error::UnknownRoomID(id)),
        };
        RequestResult::without_handler(Response::PlayersInRoom(users))
    }

    /// Joins room `id`.
    pub fn join_room(&self, factory: &mut RequestHandlerFactory, id: RoomID) -> (r: RequestResult)
        requires
            old(factory).wf(),
        ensures
            final(factory).wf(),
            join_room_outcome(self@, id, old(factory)@, final(factory)@, r@),
    {
        let room = match factory.room_manager.room(id) {
            Some(room) => room,
            None => {
                return RequestResult::without_handler(
                    Response::JoinRoom(Err(Error::UnknownRoomID(id))),
                );
            },
        };
        if room.is_full() {
            return RequestResult::without_handler(Response::JoinRoom(Err(Error::RoomFull)));
        }
        match room.room_data().state {
            RoomState::InGame => {
                return RequestResult::without_handler(Response::JoinRoom(Err(Error::RoomInGame)));
            },
            RoomState::Waiting => {},
        }
        match factory.room_manager.add_user(id, self.user.clone()) {
            Some(true) => {},
            Some(false) => {
                assert(final(factory)@ =~= old(factory)@);
                return RequestResult::without_handler(
                    Response::JoinRoom(Err(Error::UserAlreadyInRoom)),
                );
            },
            None => {
                return RequestResult::without_handler(
                    Response::JoinRoom(Err(Error::UnknownRoomID(id))),
                );
            },
        }
        let handler = factory.create_room_user_request_handler(self.user.clone(), false, id);
        RequestResult::new(Response::JoinRoom(Ok(())), AnyHandler::RoomUser(handler))
    }

    /// Opens a room and enters it as its admin.
    pub fn create_room(&self, factory: &mut RequestHandlerFactory, room_name: String, max_users: usize) -> (r: RequestResult)
        requires
            old(factory).wf(),
        ensures
            final(factory).wf(),
            create_room_outcome(self@, room_name@, max_users, old(factory)@, final(factory)@, r@),
    {
        let ghost name = room_name@;
        let id = match factory.room_manager.create_room(self.user.clone(), room_name, max_users) {
            Some(id) => id,
            None => {
                return RequestResult::new_error(NO_ROOM_ID_LEFT);
            },
        };
        let handler = factory.create_room_user_request_handler(self.user.clone(), true, id);
        RequestResult::new(Response::CreateRoom, AnyHandler::RoomUser(handler))
    }
}

} // verus!
