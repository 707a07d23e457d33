//! The server's state and the making of handlers.

use vstd::prelude::*;

use super::game::GameRequestHandler;
use super::menu::MenuRequestHandler;
use super::room_user::{RoomUserRequestHandler, RoomUserView};
use crate::constraint::Username;
use crate::managers::game::{GameID, GameManager, GameView};
use crate::managers::room::{RoomID, RoomManager, RoomManagerView, RoomView};

verus! {

/// The rooms and games of the server, shared by all handlers.
pub struct RequestHandlerFactory {
    pub room_manager: RoomManager,
    pub game_manager: GameManager,
}

pub struct FactoryView {
    pub rooms: RoomManagerView,
    pub games: Map<GameID, GameView>,
}

impl View for RequestHandlerFactory {
    type V = FactoryView;

    open spec fn view(&self) -> FactoryView {
        FactoryView { rooms: self.room_manager@, games: self.game_manager@ }
    }
}

impl RequestHandlerFactory {
    pub open spec fn wf(&self) -> bool {
        self.room_manager@.wf() && self.game_manager.wf()
    }

    /// No rooms and no games.
    pub fn new() -> (f: RequestHandlerFactory)
        ensures
            f.wf(),
            f@.rooms.rooms == Map::<RoomID, RoomView>::empty(),
            f@.rooms.next_id == 0,
            f@.games == Map::<GameID, GameView>::empty(),
    {
        let room_manager = RoomManager::new();
        let game_manager = GameManager::new();
        RequestHandlerFactory { room_manager, game_manager }
    }

    pub fn create_menu_request_handler(&self, logged_user: Username) -> (h: MenuRequestHandler)
        ensures
            h@ == logged_user@,
    {
        MenuRequestHandler::new(logged_user)
    }

    pub fn create_room_user_request_handler(
        &self,
        user: Username,
        is_admin: bool,
        room_id: RoomID,
    ) -> (h: RoomUserRequestHandler)
        ensures
            h@ == (RoomUserView { user: user@, is_admin, room_id }),
    {
        RoomUserRequestHandler::new(user, is_admin, room_id)
    }

    pub fn create_game_request_handler(&self, user: Username, game_id: GameID) -> (h:
        GameRequestHandler)
        ensures
            h@.user == user@,
            h@.game_id == game_id,
    {
        GameRequestHandler::new(user, game_id)
    }

    pub fn room_manager(&self) -> (m: &RoomManager)
        ensures
            m@ == self@.rooms,
    {
        &self.room_manager
    }

    pub fn game_manager(&self) -> (m: &GameManager)
        ensures
            m@ == self@.games,
            m.wf() == self.game_manager.wf(),
    {
        &self.game_manager
    }
}

} // verus!
