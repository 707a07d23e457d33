use game_api::constraint::Username;
use game_api::handlers::factory::RequestHandlerFactory;
use game_api::handlers::game::GameRequestHandler;
use game_api::handlers::menu::{Error as MenuError, MenuRequestHandler, NO_ROOM_ID_LEFT};
use game_api::handlers::room_user::{Error as RoomError, RoomUserRequestHandler};
use game_api::handlers::{AnyHandler, Handler};
use game_api::managers::room::RoomState;
use game_api::messages::requests::{Request, RequestInfo};
use game_api::messages::responses::{RequestResult, Response, INVALID_REQUEST, NOT_IMPLEMENTED};

fn user(name: &str) -> Username {
    Username::create(name).unwrap()
}

fn ask(h: &mut impl Handler, f: &mut RequestHandlerFactory, r: Request) -> RequestResult {
    h.handle(f, &RequestInfo::new(r))
}

fn create(name: &str, max_users: usize) -> Request {
    Request::CreateRoom { name: name.to_string(), max_users }
}

fn room_user_of(r: &RequestResult) -> (String, bool, u32) {
    match &r.new_handler {
        Some(AnyHandler::RoomUser(h)) => (h.user().as_str().to_string(), h.is_admin(), h.room_id()),
        _ => panic!("no room handler"),
    }
}

fn menu_user_of(r: &RequestResult) -> String {
    match &r.new_handler {
        Some(AnyHandler::Menu(h)) => h.user().as_str().to_string(),
        _ => panic!("no menu handler"),
    }
}

fn game_of(r: &RequestResult) -> (String, u32) {
    match &r.new_handler {
        Some(AnyHandler::Game(h)) => (h.user().as_str().to_string(), h.game_id()),
        _ => panic!("no game handler"),
    }
}

#[test]
fn menu_takes_its_requests_only() {
    let h = MenuRequestHandler::new(user("ann"));
    assert!(h.relevant(&RequestInfo::new(Request::RoomList)));
    assert!(h.relevant(&RequestInfo::new(Request::JoinRoom(1))));
    assert!(h.relevant(&RequestInfo::new(create("x", 2))));
    assert!(h.relevant(&RequestInfo::new(Request::Logout)));
    assert!(!h.relevant(&RequestInfo::new(Request::StartGame)));
    assert!(!h.relevant(&RequestInfo::new(Request::LeaveGame)));
}

#[test]
fn menu_creates_and_lists_rooms() {
    let mut f = RequestHandlerFactory::new();
    let mut ann = MenuRequestHandler::new(user("ann"));
    let r = ask(&mut ann, &mut f, create("lobby", 3));
    assert_eq!(r.response, Response::CreateRoom);
    assert_eq!(room_user_of(&r), ("ann".to_string(), true, 0));
    let r = ask(&mut ann, &mut f, Request::RoomList);
    match r.response {
        Response::RoomList(rooms) => {
            assert_eq!(rooms.len(), 1);
            assert_eq!(rooms[0].data.name, "lobby");
            assert_eq!(rooms[0].data.max_users, 3);
        }
        other => panic!("{:?}", other),
    }
    assert!(r.new_handler.is_none());
    let r = ann.get_players_in_room(&f, 0);
    assert_eq!(r.response, Response::PlayersInRoom(Ok(vec![user("ann")])));
    let r = ann.get_players_in_room(&f, 9);
    assert_eq!(r.response, Response::PlayersInRoom(Err(MenuError::UnknownRoomID(9))));
}

#[test]
fn menu_join_refusals() {
    let mut f = RequestHandlerFactory::new();
    let mut ann = MenuRequestHandler::new(user("ann"));
    let mut bob = MenuRequestHandler::new(user("bob"));
    let mut cat = MenuRequestHandler::new(user("cat"));
    ask(&mut ann, &mut f, create("two", 2));
    let r = ask(&mut bob, &mut f, Request::JoinRoom(7));
    assert_eq!(r.response, Response::JoinRoom(Err(MenuError::UnknownRoomID(7))));
    let r = ask(&mut ann, &mut f, Request::JoinRoom(0));
    assert_eq!(r.response, Response::JoinRoom(Err(MenuError::UserAlreadyInRoom)));
    assert!(r.new_handler.is_none());
    let r = ask(&mut bob, &mut f, Request::JoinRoom(0));
    assert_eq!(r.response, Response::JoinRoom(Ok(())));
    assert_eq!(room_user_of(&r), ("bob".to_string(), false, 0));
    let r = ask(&mut cat, &mut f, Request::JoinRoom(0));
    assert_eq!(r.response, Response::JoinRoom(Err(MenuError::RoomFull)));
    ask(&mut ann, &mut f, create("big", 9));
    f.room_manager.set_state(1, RoomState::InGame);
    let r = ask(&mut cat, &mut f, Request::JoinRoom(1));
    assert_eq!(r.response, Response::JoinRoom(Err(MenuError::RoomInGame)));
}

#[test]
fn menu_other_answers() {
    let mut f = RequestHandlerFactory::new();
    let mut ann = MenuRequestHandler::new(user("ann"));
    assert!(!ann.can_serve(&RequestInfo::new(Request::Logout)));
    assert!(!ann.can_serve(&RequestInfo::new(Request::Highscores)));
    assert!(!ann.can_serve(&RequestInfo::new(Request::PersonalStats)));
    assert!(ann.can_serve(&RequestInfo::new(Request::RoomList)));
    let mut any = AnyHandler::Menu(MenuRequestHandler::new(user("bob")));
    assert!(!any.can_serve(&RequestInfo::new(Request::Logout)));
    let r = ask(&mut any, &mut f, Request::RoomList);
    assert!(matches!(r.response, Response::RoomList(_)));
    let mut room = RoomUserRequestHandler::new(user("ann"), true, 0);
    assert!(room.can_serve(&RequestInfo::new(Request::Logout)));
    let r = ask(&mut room, &mut f, Request::Logout);
    assert_eq!(r.response, Response::Error("Invalid request".to_string()));
    let r = ask(&mut ann, &mut f, Request::StartGame);
    assert_eq!(r.response, Response::Error("Invalid request".to_string()));
    assert!(r.new_handler.is_none());
    let _ = NO_ROOM_ID_LEFT;
}

#[test]
fn room_user_flow() {
    let mut f = RequestHandlerFactory::new();
    let mut ann_menu = MenuRequestHandler::new(user("ann"));
    let mut bob_menu = MenuRequestHandler::new(user("bob"));
    ask(&mut ann_menu, &mut f, create("lobby", 4));
    ask(&mut bob_menu, &mut f, Request::JoinRoom(0));
    let mut ann = f.create_room_user_request_handler(user("ann"), true, 0);
    let mut bob = RoomUserRequestHandler::new(user("bob"), false, 0);
    assert!(bob.relevant(&RequestInfo::new(Request::RoomState)));
    assert!(!bob.relevant(&RequestInfo::new(Request::RoomList)));

    let r = ask(&mut bob, &mut f, Request::RoomState);
    assert_eq!(
        r.response,
        Response::RoomState {
            state: RoomState::Waiting,
            name: "lobby".to_string(),
            players: vec![user("ann"), user("bob")],
        }
    );
    let r = ask(&mut bob, &mut f, Request::CloseRoom);
    assert_eq!(r.response, Response::CloseRoom(Err(RoomError::NotAdmin)));
    let r = ask(&mut bob, &mut f, Request::StartGame);
    assert_eq!(r.response, Response::StartGame(Err(RoomError::NotAdmin)));
    let r = ask(&mut bob, &mut f, Request::RoomList);
    assert_eq!(r.response, Response::new_error(INVALID_REQUEST));

    let r = ask(&mut ann, &mut f, Request::StartGame);
    assert_eq!(r.response, Response::StartGame(Ok(())));
    assert_eq!(game_of(&r), ("ann".to_string(), 0));
    assert_eq!(f.game_manager().game(&0).unwrap().users().len(), 2);
    let r = ask(&mut bob, &mut f, Request::RoomState);
    assert_eq!(r.response, Response::StartGame(Ok(())));
    assert_eq!(game_of(&r), ("bob".to_string(), 0));

    let r = ask(&mut bob, &mut f, Request::LeaveRoom);
    assert_eq!(r.response, Response::LeaveRoom);
    assert_eq!(menu_user_of(&r), "bob");
    assert_eq!(f.room_manager().room(0).unwrap().users().len(), 1);
    let r = ask(&mut ann, &mut f, Request::CloseRoom);
    assert_eq!(r.response, Response::CloseRoom(Ok(())));
    assert!(f.room_manager().room(0).is_none());
    let r = ask(&mut bob, &mut f, Request::RoomState);
    assert_eq!(r.response, Response::LeaveRoom);
}

#[test]
fn start_game_of_a_closed_room_is_refused() {
    let mut f = RequestHandlerFactory::new();
    let mut ann = RoomUserRequestHandler::new(user("ann"), true, 4);
    let r = ask(&mut ann, &mut f, Request::StartGame);
    assert_eq!(r.response, Response::StartGame(Err(RoomError::UnknownRoomID(4))));
}

#[test]
fn last_user_leaving_closes_the_room() {
    let mut f = RequestHandlerFactory::new();
    let mut menu = MenuRequestHandler::new(user("ann"));
    ask(&mut menu, &mut f, create("solo", 1));
    let mut ann = RoomUserRequestHandler::new(user("ann"), true, 0);
    ask(&mut ann, &mut f, Request::LeaveRoom);
    assert!(f.room_manager().room(0).is_none());
}

#[test]
fn game_handler_answers() {
    let mut f = RequestHandlerFactory::new();
    let mut menu = MenuRequestHandler::new(user("ann"));
    ask(&mut menu, &mut f, create("g", 3));
    let mut admin = RoomUserRequestHandler::new(user("ann"), true, 0);
    ask(&mut admin, &mut f, Request::StartGame);
    let mut g = GameRequestHandler::new(user("ann"), 0);
    assert!(g.relevant(&RequestInfo::new(Request::LeaveGame)));
    assert!(!g.relevant(&RequestInfo::new(Request::RoomState)));
    let r = ask(&mut g, &mut f, Request::GameResult);
    assert_eq!(r.response, Response::new_error(NOT_IMPLEMENTED));
    let r = ask(&mut g, &mut f, Request::JoinRoom(0));
    assert_eq!(r.response, Response::new_error(INVALID_REQUEST));
    let r = ask(&mut g, &mut f, Request::LeaveGame);
    assert_eq!(r.response, Response::LeaveGame);
    assert_eq!(menu_user_of(&r), "ann");
    assert!(f.game_manager().game(&0).is_some());
    assert!(f.room_manager().room(0).is_some());
}

#[test]
fn any_handler_dispatches() {
    let mut f = RequestHandlerFactory::new();
    let mut h = AnyHandler::Menu(f.create_menu_request_handler(user("ann")));
    assert!(h.relevant(&RequestInfo::new(Request::RoomList)));
    let r = h.handle(&mut f, &RequestInfo::new(create("x", 2)));
    assert_eq!(r.response, Response::CreateRoom);
    let mut next = r.new_handler.unwrap();
    assert!(next.relevant(&RequestInfo::new(Request::StartGame)));
    let r = next.handle(&mut f, &RequestInfo::new(Request::StartGame));
    let mut game = r.new_handler.unwrap();
    assert!(game.relevant(&RequestInfo::new(Request::LeaveGame)));
    let g = f.create_game_request_handler(user("ann"), 0);
    assert_eq!(g.game_id(), 0);
    let r = game.handle(&mut f, &RequestInfo::new(Request::LeaveGame));
    assert_eq!(r.response, Response::LeaveGame);
}

#[test]
fn request_result_constructors() {
    let r = RequestResult::new_error("boom");
    assert_eq!(r.response, Response::Error("boom".to_string()));
    assert!(r.new_handler.is_none());
    let r = RequestResult::without_handler(Response::LeaveGame);
    assert!(r.new_handler.is_none());
    let f = RequestHandlerFactory::new();
    let r = RequestResult::new(Response::Logout, AnyHandler::Menu(f.create_menu_request_handler(user("zed"))));
    assert_eq!(menu_user_of(&r), "zed");
    assert_eq!(RequestInfo::new(Request::RoomList).data, Request::RoomList);
}
