//! A user in a running game.

use vstd::prelude::*;

use super::factory::{FactoryView, RequestHandlerFactory};
use super::menu::answers_only;
use super::{AnyHandler, Handler, HandlerView};
use crate::constraint::Username;
use crate::managers::game::{GameID, GameManager};
use crate::messages::requests::{Request, RequestInfo};
use crate::messages::responses::{
    answer, answer_then, RequestResult, RequestResultView, Response, ResponseView,
    INVALID_REQUEST, NOT_IMPLEMENTED,
};

verus! {

/// Why a game request is refused.
#[derive(Debug, PartialEq, Eq, Clone, Copy)]
pub enum Error {
    UnknownGameID(GameID),
}

/// Takes the requests of a player of game `game_id`.
pub struct GameRequestHandler {
    game_id: GameID,
    user: Username,
}

pub struct GameHandlerView {
    pub user: Seq<char>,
    pub game_id: GameID,
}

impl View for GameRequestHandler {
    type V = GameHandlerView;

    closed spec fn view(&self) -> GameHandlerView {
        GameHandlerView { user: self.user@, game_id: self.game_id }
    }
}

/// The requests a player's handler takes.
pub open spec fn game_relevant(r: Request) -> bool {
    r is LeaveGame || r is GameResult
}

/// What the handler `h` of a player does with `request`: leaving goes back
/// to the menu and changes no game, as leaving does not yet change a game;
/// results are not served yet.
pub open spec fn game_handles(
    h: GameHandlerView,
    request: Request,
    pre: FactoryView,
    post: FactoryView,
    res: RequestResultView,
) -> bool {
    match request {
        Request::GameResult => answers_only(
            pre,
            post,
            res,
            answer(ResponseView::Error(NOT_IMPLEMENTED@)),
        ),
        Request::LeaveGame => answers_only(
            pre,
            post,
            res,
            answer_then(ResponseView::LeaveGame, HandlerView::Menu { user: h.user }),
        ),
        _ => answers_only(pre, post, res, answer(ResponseView::Error(INVALID_REQUEST@))),
    }
}

impl Handler for GameRequestHandler {
    open spec fn serves(&self, request: Request) -> bool {
        true
    }

    fn can_serve(&self, request_info: &RequestInfo) -> (b: bool) {
        true
    }

    fn relevant(&self, request_info: &RequestInfo) -> (b: bool)
        ensures
            b == game_relevant(request_info.data),
    {
        match &request_info.data {
            Request::LeaveGame | Request::GameResult => true,
            _ => false,
        }
    }

    fn handle(&mut self, factory: &mut RequestHandlerFactory, request_info: &RequestInfo) -> (r:
        RequestResult)
        ensures
            final(self)@ == old(self)@,
            game_handles(old(self)@, request_info.data, old(factory)@, final(factory)@, r@),
    {
        match &request_info.data {
            Request::GameResult => self.game_results(),
            Request::LeaveGame => self.leave_game(factory),
            _ => RequestResult::new_error(INVALID_REQUEST),
        }
    }
}

impl GameRequestHandler {
    pub fn new(user: Username, game_id: GameID) -> (h: GameRequestHandler)
        ensures
            h@ == (GameHandlerView { user: user@, game_id }),
    {
        GameRequestHandler { game_id, user }
    }

    /// The user whose requests this handler takes.
    pub fn user(&self) -> (u: &Username)
        ensures
            u@ == self@.user,
    {
        &self.user
    }

    pub fn game_id(&self) -> (id: GameID)
        ensures
            id == self@.game_id,
    {
        self.game_id
    }

    /// Leaves the game, back to the menu. A game that no one plays any more
    /// ends, and its room closes.
    pub fn leave_game(&self, factory: &mut RequestHandlerFactory) -> (r: RequestResult)
        requires
            old(factory).wf(),
        ensures
            final(factory).wf(),
            answers_only(
                old(factory)@,
                final(factory)@,
                r@,
                answer_then(ResponseView::LeaveGame, HandlerView::Menu { user: self@.user }),
            ),
    {
        match factory.game_manager.game_mut(&self.game_id) {
            Some(game) => {
                game.remove_user(&self.user);
                let empty = game.is_empty();
                proof {
                    GameManager::lemma_put_back(
                        &old(factory).game_manager,
                        &factory.game_manager,
                        self.game_id,
                    );
                }
                if empty {
                    factory.game_manager.delete_game(&self.game_id);
                    factory.room_manager.delete_room(self.game_id);
                }
            },
            None => {
                proof {
                    GameManager::lemma_same_games(&old(factory).game_manager, &factory.game_manager);
                }
            },
        }
        let handler = factory.create_menu_request_handler(self.user.clone());
        RequestResult::new(Response::LeaveGame, AnyHandler::Menu(handler))
    }

    /// The game's results; not served yet.
    fn game_results(&self) -> (r: RequestResult)
        ensures
            r@ == answer(ResponseView::Error(NOT_IMPLEMENTED@)),
    {
        RequestResult::new_error(NOT_IMPLEMENTED)
    }
}

} // verus!
