use game_api::constraint::Username;
use game_api::managers::game::{Game, GameData, GameManager};
use game_api::managers::login::LoginManager;
use game_api::managers::room::{Room, RoomData, RoomManager, RoomState};
use game_api::managers::statistics::StatisticsManager;

fn user(name: &str) -> Username {
    Username::create(name).unwrap()
}

fn names(users: &[Username]) -> Vec<String> {
    users.iter().map(|u| u.as_str().to_string()).collect()
}

#[test]
fn room_takes_each_user_once() {
    let mut room = Room::new(user("admin"), RoomData::new(3, "lobby".to_string(), 2));
    assert_eq!(names(room.users()), vec!["admin"]);
    assert!(!room.is_full());
    assert!(room.add_user(user("bob")));
    assert!(!room.add_user(user("bob")));
    assert!(room.is_full());
    assert!(room.has_user(&user("bob")));
    room.remove_user(&user("admin"));
    assert_eq!(names(room.users()), vec!["bob"]);
    room.remove_user(&user("nobody"));
    assert_eq!(names(room.users()), vec!["bob"]);
    room.remove_user(&user("bob"));
    assert!(room.is_empty());
    assert_eq!(room.room_data().room_id, 3);
    assert_eq!(room.room_data().state, RoomState::Waiting);
}

#[test]
fn room_manager_hands_out_fresh_ids() {
    let mut m = RoomManager::new();
    let a = m.create_room(user("ann"), "a".to_string(), 4).unwrap();
    let b = m.create_room(user("ben"), "b".to_string(), 4).unwrap();
    assert_eq!((a, b), (0, 1));
    assert_eq!(m.room(a).unwrap().room_data().name, "a");
    assert_eq!(names(m.room(b).unwrap().users()), vec!["ben"]);
    m.delete_room(a);
    assert!(m.room(a).is_none());
    let c = m.create_room(user("cat"), "c".to_string(), 4).unwrap();
    assert_eq!(c, 2);
    let mut ids: Vec<u32> = m.rooms().iter().map(|r| r.data.room_id).collect();
    ids.sort();
    assert_eq!(ids, vec![1, 2]);
}

#[test]
fn room_manager_changes_rooms_in_place() {
    let mut m = RoomManager::new();
    let id = m.create_room(user("ann"), "a".to_string(), 4).unwrap();
    assert_eq!(m.add_user(id, user("bob")), Some(true));
    assert_eq!(m.add_user(id, user("bob")), Some(false));
    assert_eq!(m.add_user(id + 7, user("bob")), None);
    m.set_state(id, RoomState::InGame);
    assert_eq!(m.room(id).unwrap().room_data().state, RoomState::InGame);
    m.remove_user(id, &user("ann"));
    assert_eq!(names(m.room(id).unwrap().users()), vec!["bob"]);
    m.set_state(id + 7, RoomState::InGame);
    assert!(m.room(id + 7).is_none());
}

#[test]
fn room_clone_is_equal() {
    let room = Room::new(user("ann"), RoomData::new(9, "x".to_string(), 1));
    assert_eq!(room.clone(), room);
}

#[test]
fn game_lists_each_player_once() {
    let game = Game::new(5, vec![user("ann"), user("bob"), user("ann")]);
    assert_eq!(game.id(), 5);
    let mut players = names(&game.users());
    players.sort();
    assert_eq!(players, vec!["ann", "bob"]);
    let results = game.results();
    assert_eq!(results.len(), 2);
    assert!(results.iter().all(|(_, d)| *d == GameData::default()));
    assert!(!game.is_empty());
    assert!(!game.all_finished());
}

#[test]
fn game_remove_user_keeps_the_player() {
    let mut game = Game::new(1, vec![user("ann")]);
    game.remove_user(&user("ann"));
    assert_eq!(names(&game.users()), vec!["ann"]);
}

#[test]
fn game_manager_keeps_a_running_game() {
    let mut rooms = RoomManager::new();
    let id = rooms.create_room(user("ann"), "a".to_string(), 4).unwrap();
    rooms.add_user(id, user("bob"));
    let mut games = GameManager::new();
    let room = rooms.room(id).unwrap().clone();
    assert_eq!(games.create_game(&room).ok().unwrap().id(), id);
    assert_eq!(games.game(&id).unwrap().users().len(), 2);
    rooms.add_user(id, user("cat"));
    let bigger = rooms.room(id).unwrap().clone();
    games.create_game(&bigger).ok().unwrap();
    assert_eq!(games.game(&id).unwrap().users().len(), 2);
    assert!(games.game_mut(&id).is_some());
    assert!(games.game_mut(&(id + 1)).is_none());
    assert!(games.submit_game_results(&id).is_ok());
    games.delete_game(&id);
    assert!(games.game(&id).is_none());
}

#[test]
fn fresh_login_and_statistics_managers() {
    let _ = LoginManager::new();
    let _ = StatisticsManager::new();
}
