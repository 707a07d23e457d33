//! Laws of the handlers: what holds across requests.

use vstd::prelude::*;

use super::factory::FactoryView;
use super::game::GameHandlerView;
use super::menu::{create_room_outcome, join_room_outcome};
use super::room_user::{
    close_room_outcome, leave_room_outcome, room_state_outcome, start_game_outcome,
    Error as RoomError, RoomUserView,
};
use super::{handles, takes, HandlerView};
use crate::managers::room::{other_than, without_user, RoomID, RoomState};
use crate::messages::requests::Request;
use crate::messages::responses::{
    answer, answer_then, RequestResultView, ResponseView, INVALID_REQUEST,
};

verus! {

/// Taking out a user who is not in a list leaves the list as it is.
proof fn lemma_without_absent_user(users: Seq<Seq<char>>, user: Seq<char>)
    requires
        !users.contains(user),
    ensures
        without_user(users, user) == users,
    decreases users.len(),
{
    if users.len() > 0 {
        let rest = users.drop_last();
        assert(!rest.contains(user)) by {
            if rest.contains(user) {
                let k = choose|k: int| 0 <= k < rest.len() && rest[k] == user;
                assert(users[k] == user);
            }
        }
        lemma_without_absent_user(rest, user);
        reveal_with_fuel(Seq::filter, 1);
        assert(other_than(user)(users.last()));
        assert(users =~= rest.push(users.last()));
    }
}

/// A request that a handler does not take is answered "Invalid request"
/// and changes nothing.
pub proof fn lemma_unrelated_request_refused(
    h: HandlerView,
    request: Request,
    pre: FactoryView,
    post: FactoryView,
    res: RequestResultView,
)
    requires
        !takes(h, request),
        handles(h, request, pre, post, res),
    ensures
        post == pre,
        res == answer(ResponseView::Error(INVALID_REQUEST@)),
{
}

/// A user who joins a room that has users and then leaves it leaves the
/// server as it was before the join.
pub proof fn lemma_join_then_leave(
    user: Seq<char>,
    id: RoomID,
    s0: FactoryView,
    s1: FactoryView,
    r1: RequestResultView,
    s2: FactoryView,
    r2: RequestResultView,
)
    requires
        s0.rooms.wf(),
        s0.rooms.rooms.contains_key(id),
        s0.rooms.rooms[id].users.len() > 0,
        join_room_outcome(user, id, s0, s1, r1),
        r1.response == ResponseView::JoinRoom(Ok(())),
        leave_room_outcome(RoomUserView { user, is_admin: false, room_id: id }, s1, s2, r2),
    ensures
        s2 == s0,
        r2 == answer_then(ResponseView::LeaveRoom, HandlerView::Menu { user }),
{
    let users = s0.rooms.rooms[id].users;
    assert(!users.contains(user));
    reveal_with_fuel(Seq::filter, 1);
    assert(users.push(user).drop_last() =~= users);
    lemma_without_absent_user(users, user);
    assert(without_user(users.push(user), user) == users);
    assert(s2.rooms.rooms =~= s0.rooms.rooms);
}

/// An admin who opens a room and closes it at once leaves the rooms and
/// games as they were; only the next room id has moved on.
pub proof fn lemma_create_then_close(
    user: Seq<char>,
    name: Seq<char>,
    max_users: usize,
    s0: FactoryView,
    s1: FactoryView,
    r1: RequestResultView,
    s2: FactoryView,
    r2: RequestResultView,
)
    requires
        s0.rooms.wf(),
        create_room_outcome(user, name, max_users, s0, s1, r1),
        r1.response == ResponseView::CreateRoom,
        close_room_outcome(
            RoomUserView { user, is_admin: true, room_id: s0.rooms.next_id },
            s1,
            s2,
            r2,
        ),
    ensures
        s2.rooms.rooms == s0.rooms.rooms,
        s2.rooms.next_id == s0.rooms.next_id + 1,
        s2.games == s0.games,
{
    assert(!s0.rooms.rooms.contains_key(s0.rooms.next_id));
    assert(s2.rooms.rooms =~= s0.rooms.rooms);
}

/// Once its admin started a room's game, every member asking for the room's
/// state is sent on to that game.
pub proof fn lemma_started_room_leads_to_game(
    admin: Seq<char>,
    member: Seq<char>,
    id: RoomID,
    s0: FactoryView,
    s1: FactoryView,
    r1: RequestResultView,
    s2: FactoryView,
    r2: RequestResultView,
)
    requires
        start_game_outcome(RoomUserView { user: admin, is_admin: true, room_id: id }, s0, s1, r1),
        r1.response == ResponseView::StartGame(Ok(())),
        room_state_outcome(RoomUserView { user: member, is_admin: false, room_id: id }, s1, s2, r2),
    ensures
        s2 == s1,
        s1.games.contains_key(id),
        r2 == answer_then(
            ResponseView::StartGame(Ok(())),
            HandlerView::Game(GameHandlerView { user: member, game_id: id }),
        ),
{
}

/// A room whose game started takes no one in.
pub proof fn lemma_no_join_after_start(
    admin: Seq<char>,
    user: Seq<char>,
    id: RoomID,
    s0: FactoryView,
    s1: FactoryView,
    r1: RequestResultView,
    s2: FactoryView,
    r2: RequestResultView,
)
    requires
        start_game_outcome(RoomUserView { user: admin, is_admin: true, room_id: id }, s0, s1, r1),
        r1.response == ResponseView::StartGame(Ok(())),
        join_room_outcome(user, id, s1, s2, r2),
    ensures
        s2 == s1,
        r2.response != ResponseView::JoinRoom(Ok(())),
{
}


/// Only a room's admin starts its game: a start request from anyone else is
/// refused as "not admin" and changes no room and no game.
pub proof fn lemma_only_admin_starts_game(
    h: RoomUserView,
    pre: FactoryView,
    post: FactoryView,
    res: RequestResultView,
)
    requires
        !h.is_admin,
        start_game_outcome(h, pre, post, res),
    ensures
        post == pre,
        res.response == ResponseView::StartGame(Err(RoomError::NotAdmin)),
        res.new_handler is None,
{
}

/// A started game runs in its room: after a successful start the room is in
/// game and a game under the room's id exists.
pub proof fn lemma_started_game_exists(
    h: RoomUserView,
    pre: FactoryView,
    post: FactoryView,
    res: RequestResultView,
)
    requires
        start_game_outcome(h, pre, post, res),
        res.response == ResponseView::StartGame(Ok(())),
    ensures
        h.is_admin,
        post.rooms.rooms.contains_key(h.room_id),
        post.rooms.rooms[h.room_id].data.state == RoomState::InGame,
        post.games.contains_key(h.room_id),
{
}

/// A refused join changes nothing.
pub proof fn lemma_refused_join_changes_nothing(
    user: Seq<char>,
    id: RoomID,
    pre: FactoryView,
    post: FactoryView,
    res: RequestResultView,
)
    requires
        join_room_outcome(user, id, pre, post, res),
        res.response != ResponseView::JoinRoom(Ok(())),
    ensures
        post == pre,
        res.new_handler is None,
{
}

/// Joining never fills a room beyond its size: every room that held at most
/// as many users as it takes still does after a join, and no room appears
/// or disappears.
pub proof fn lemma_join_keeps_rooms_within_size(
    user: Seq<char>,
    id: RoomID,
    pre: FactoryView,
    post: FactoryView,
    res: RequestResultView,
)
    requires
        join_room_outcome(user, id, pre, post, res),
    ensures
        post.rooms.rooms.dom() == pre.rooms.rooms.dom(),
        forall|k: RoomID|
            #[trigger] pre.rooms.rooms.contains_key(k) && pre.rooms.rooms[k].users.len()
                <= pre.rooms.rooms[k].data.max_users ==> post.rooms.rooms[k].users.len()
                <= post.rooms.rooms[k].data.max_users,
{
    if res.response == ResponseView::JoinRoom(Ok(())) {
        assert(post.rooms.rooms.dom() =~= pre.rooms.rooms.dom());
    }
}

/// Leaving takes out the leaving user and no one else, admin or not: a room
/// that holds someone else stays open, with exactly its other users.
pub proof fn lemma_leave_takes_out_only_the_leaver(
    h: RoomUserView,
    other: Seq<char>,
    pre: FactoryView,
    post: FactoryView,
    res: RequestResultView,
)
    requires
        leave_room_outcome(h, pre, post, res),
        pre.rooms.rooms.contains_key(h.room_id),
        pre.rooms.rooms[h.room_id].users.contains(other),
        other != h.user,
    ensures
        post.rooms.rooms.contains_key(h.room_id),
        forall|u: Seq<char>|
            #[trigger] post.rooms.rooms[h.room_id].users.contains(u) <==> (
            pre.rooms.rooms[h.room_id].users.contains(u) && u != h.user),
        post.rooms.rooms[h.room_id].data == pre.rooms.rooms[h.room_id].data,
        forall|k: RoomID|
            k != h.room_id ==> (#[trigger] post.rooms.rooms.contains_key(k)
                == pre.rooms.rooms.contains_key(k) && post.rooms.rooms[k] == pre.rooms.rooms[k]),
        post.games == pre.games,
        res.new_handler == Some(HandlerView::Menu { user: h.user }),
{
    let users = pre.rooms.rooms[h.room_id].users;
    let pred = other_than(h.user);
    let left = without_user(users, h.user);
    let i = choose|i: int| 0 <= i < users.len() && users[i] == other;
    users.lemma_filter_contains(pred, i);
    assert(left.contains(other));
    assert(left.len() > 0);
    assert forall|u: Seq<char>| #[trigger] left.contains(u) <==> (users.contains(u) && u
        != h.user) by {
        if left.contains(u) {
            users.lemma_filter_contains_rev(pred, u);
            let j = choose|j: int| 0 <= j < left.len() && left[j] == u;
            users.lemma_filter_pred(pred, j);
        }
        if users.contains(u) && u != h.user {
            let j = choose|j: int| 0 <= j < users.len() && users[j] == u;
            users.lemma_filter_contains(pred, j);
        }
    }
}

/// Closing a room, by its admin, removes it whoever is still in it, and
/// leaves every other room and all games as they were.
pub proof fn lemma_admin_close_removes_room(
    h: RoomUserView,
    pre: FactoryView,
    post: FactoryView,
    res: RequestResultView,
)
    requires
        h.is_admin,
        close_room_outcome(h, pre, post, res),
    ensures
        !post.rooms.rooms.contains_key(h.room_id),
        forall|k: RoomID|
            k != h.room_id ==> (#[trigger] post.rooms.rooms.contains_key(k)
                == pre.rooms.rooms.contains_key(k) && post.rooms.rooms[k] == pre.rooms.rooms[k]),
        post.games == pre.games,
        res.response == ResponseView::CloseRoom(Ok(())),
        res.new_handler == Some(HandlerView::Menu { user: h.user }),
{
}

/// Asking for the state of a room that is gone sends the user back to the
/// menu and changes nothing.
pub proof fn lemma_gone_room_sends_back_to_menu(
    h: RoomUserView,
    pre: FactoryView,
    post: FactoryView,
    res: RequestResultView,
)
    requires
        !pre.rooms.rooms.contains_key(h.room_id),
        room_state_outcome(h, pre, post, res),
    ensures
        post == pre,
        res.response == ResponseView::LeaveRoom,
        res.new_handler == Some(HandlerView::Menu { user: h.user }),
{
    assert(post.rooms == pre.rooms);
}

} // verus!
