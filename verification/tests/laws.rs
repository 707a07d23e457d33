use game_api::constraint::Username;
use game_api::handlers::factory::RequestHandlerFactory;
use game_api::handlers::menu::MenuRequestHandler;
use game_api::handlers::room_user::RoomUserRequestHandler;
use game_api::handlers::{AnyHandler, Handler};
use game_api::messages::requests::{Request, RequestInfo};
use game_api::messages::responses::Response;

fn user(name: &str) -> Username {
    Username::create(name).unwrap()
}

fn users_of(f: &RequestHandlerFactory, id: u32) -> Vec<String> {
    f.room_manager().room(id).unwrap().users().iter().map(|u| u.as_str().to_string()).collect()
}

#[test]
fn join_then_leave_restores_the_room() {
    let mut f = RequestHandlerFactory::new();
    let mut ann = MenuRequestHandler::new(user("ann"));
    ann.handle(&mut f, &RequestInfo::new(Request::CreateRoom { name: "r".to_string(), max_users: 5 }));
    let before = users_of(&f, 0);
    let mut bob = MenuRequestHandler::new(user("bob"));
    let r = bob.handle(&mut f, &RequestInfo::new(Request::JoinRoom(0)));
    let mut bob_room = match r.new_handler {
        Some(AnyHandler::RoomUser(h)) => h,
        _ => panic!("no room handler"),
    };
    assert_eq!(users_of(&f, 0), vec!["ann", "bob"]);
    bob_room.handle(&mut f, &RequestInfo::new(Request::LeaveRoom));
    assert_eq!(users_of(&f, 0), before);
}

#[test]
fn create_then_close_leaves_no_room() {
    let mut f = RequestHandlerFactory::new();
    let mut ann = MenuRequestHandler::new(user("ann"));
    ann.handle(&mut f, &RequestInfo::new(Request::CreateRoom { name: "r".to_string(), max_users: 5 }));
    let mut admin = RoomUserRequestHandler::new(user("ann"), true, 0);
    admin.handle(&mut f, &RequestInfo::new(Request::CloseRoom));
    assert!(f.room_manager().rooms().is_empty());
    let r = ann.handle(&mut f, &RequestInfo::new(Request::CreateRoom { name: "s".to_string(), max_users: 5 }));
    match r.new_handler {
        Some(AnyHandler::RoomUser(h)) => assert_eq!(h.room_id(), 1),
        _ => panic!("no room handler"),
    }
}

#[test]
fn started_room_leads_members_to_the_game_and_takes_no_one() {
    let mut f = RequestHandlerFactory::new();
    let mut ann = MenuRequestHandler::new(user("ann"));
    ann.handle(&mut f, &RequestInfo::new(Request::CreateRoom { name: "r".to_string(), max_users: 5 }));
    let mut bob = MenuRequestHandler::new(user("bob"));
    bob.handle(&mut f, &RequestInfo::new(Request::JoinRoom(0)));
    let mut admin = RoomUserRequestHandler::new(user("ann"), true, 0);
    admin.handle(&mut f, &RequestInfo::new(Request::StartGame));
    let mut member = RoomUserRequestHandler::new(user("bob"), false, 0);
    let r = member.handle(&mut f, &RequestInfo::new(Request::RoomState));
    assert_eq!(r.response, Response::StartGame(Ok(())));
    assert!(matches!(r.new_handler, Some(AnyHandler::Game(_))));
    let mut cat = MenuRequestHandler::new(user("cat"));
    let r = cat.handle(&mut f, &RequestInfo::new(Request::JoinRoom(0)));
    assert_ne!(r.response, Response::JoinRoom(Ok(())));
}

#[test]
fn unrelated_requests_change_nothing() {
    let mut f = RequestHandlerFactory::new();
    let mut ann = MenuRequestHandler::new(user("ann"));
    ann.handle(&mut f, &RequestInfo::new(Request::CreateRoom { name: "r".to_string(), max_users: 5 }));
    let requests = [Request::StartGame, Request::CloseRoom, Request::LeaveRoom, Request::LeaveGame, Request::GameResult, Request::RoomState];
    for req in requests {
        let r = ann.handle(&mut f, &RequestInfo::new(req));
        assert_eq!(r.response, Response::Error("Invalid request".to_string()));
        assert!(r.new_handler.is_none());
        assert_eq!(users_of(&f, 0), vec!["ann"]);
    }
}
