//! Handlers: each takes the requests of one client in one stage (menu, room,
//! game), answers them against the server's state, and names the handler
//! for the next stage.

pub mod factory;
pub mod game;
pub mod laws;
pub mod menu;
pub mod room_user;

pub use factory::RequestHandlerFactory;
pub use game::GameRequestHandler;
pub use menu::MenuRequestHandler;
pub use room_user::RoomUserRequestHandler;

use vstd::prelude::*;

use crate::messages::requests::{Request, RequestInfo};
use crate::messages::responses::RequestResult;
use factory::FactoryView;
use game::GameHandlerView;
use room_user::RoomUserView;

verus! {

/// A handler as a value: its stage and what it knows of its client.
pub enum HandlerView {
    Menu { user: Seq<char> },
    RoomUser(RoomUserView),
    Game(GameHandlerView),
}

/// Takes the requests of a client.
pub trait Handler {
    /// Whether this handler can serve `request`: some requests lead to work
    /// that the server does not do yet (logging out, statistics), and no
    /// handler may be handed those.
    spec fn serves(&self, request: Request) -> bool;

    /// Whether this handler can serve `request_info`.
    fn can_serve(&self, request_info: &RequestInfo) -> (b: bool)
        ensures
            b == self.serves(request_info.data),
    ;

    /// Whether this handler takes `request_info`.
    fn relevant(&self, request_info: &RequestInfo) -> bool;

    /// Answers `request_info`, changing the server's state as it says.
    fn handle(&mut self, factory: &mut RequestHandlerFactory, request_info: &RequestInfo) -> (r:
        RequestResult)
        requires
            old(factory).wf(),
            old(self).serves(request_info.data),
        ensures
            final(factory).wf(),
    ;
}

/// Any of the handlers.
pub enum AnyHandler {
    Menu(MenuRequestHandler),
    RoomUser(RoomUserRequestHandler),
    Game(GameRequestHandler),
}

impl View for AnyHandler {
    type V = HandlerView;

    open spec fn view(&self) -> HandlerView {
        match self {
            AnyHandler::Menu(h) => HandlerView::Menu { user: h@ },
            AnyHandler::RoomUser(h) => HandlerView::RoomUser(h@),
            AnyHandler::Game(h) => HandlerView::Game(h@),
        }
    }
}

/// What handler `h` does with `request`: from state `pre` to state `post`,
/// answering `res`.
pub open spec fn handles(
    h: HandlerView,
    request: crate::messages::requests::Request,
    pre: FactoryView,
    post: FactoryView,
    res: crate::messages::responses::RequestResultView,
) -> bool {
    match h {
        HandlerView::Menu { user } => menu::menu_handles(user, request, pre, post, res),
        HandlerView::RoomUser(v) => room_user::room_user_handles(v, request, pre, post, res),
        HandlerView::Game(v) => game::game_handles(v, request, pre, post, res),
    }
}

/// Whether handler `h` takes `request`.
pub open spec fn takes(h: HandlerView, request: crate::messages::requests::Request) -> bool {
    match h {
        HandlerView::Menu { .. } => menu::menu_relevant(request),
        HandlerView::RoomUser(_) => room_user::room_user_relevant(request),
        HandlerView::Game(_) => game::game_relevant(request),
    }
}

impl Handler for AnyHandler {
    open spec fn serves(&self, request: Request) -> bool {
        match self {
            AnyHandler::Menu(h) => h.serves(request),
            AnyHandler::RoomUser(h) => h.serves(request),
            AnyHandler::Game(h) => h.serves(request),
        }
    }

    fn can_serve(&self, request_info: &RequestInfo) -> (b: bool) {
        match self {
            AnyHandler::Menu(h) => h.can_serve(request_info),
            AnyHandler::RoomUser(h) => h.can_serve(request_info),
            AnyHandler::Game(h) => h.can_serve(request_info),
        }
    }

    fn relevant(&self, request_info: &RequestInfo) -> (b: bool)
        ensures
            b == takes(self@, request_info.data),
    {
        match self {
            AnyHandler::Menu(h) => h.relevant(request_info),
            AnyHandler::RoomUser(h) => h.relevant(request_info),
            AnyHandler::Game(h) => h.relevant(request_info),
        }
    }

    fn handle(&mut self, factory: &mut RequestHandlerFactory, request_info: &RequestInfo) -> (r:
        RequestResult)
        ensures
            final(self)@ == old(self)@,
            handles(old(self)@, request_info.data, old(factory)@, final(factory)@, r@),
    {
        match self {
            AnyHandler::Menu(h) => h.handle(factory, request_info),
            AnyHandler::RoomUser(h) => h.handle(factory, request_info),
            AnyHandler::Game(h) => h.handle(factory, request_info),
        }
    }
}

} // verus!
