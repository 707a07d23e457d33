//! Rooms where users gather before a game starts.

use std::collections::HashMap;
use vstd::prelude::*;
use vstd::std_specs::iter::IteratorSpec;

use crate::constraint::{names, Username};

verus! {

broadcast use vstd::std_specs::hash::group_hash_axioms;

pub type RoomID = u32;

/// Whether the users of a room are still gathering or already playing.
#[derive(Debug, Clone, Copy, PartialEq, Eq)]
pub enum RoomState {
    Waiting,
    InGame,
}

/// What a room is: its id, its name, how many users it takes, and its state.
#[derive(Debug, PartialEq, Eq)]
pub struct RoomData {
    pub room_id: RoomID,
    pub name: String,
    pub max_users: usize,
    pub state: RoomState,
}

pub struct RoomDataView {
    pub room_id: RoomID,
    pub name: Seq<char>,
    pub max_users: usize,
    pub state: RoomState,
}

impl View for RoomData {
    type V = RoomDataView;

    open spec fn view(&self) -> RoomDataView {
        RoomDataView {
            room_id: self.room_id,
            name: self.name@,
            max_users: self.max_users,
            state: self.state,
        }
    }
}

impl Clone for RoomData {
    fn clone(&self) -> (d: RoomData)
        ensures
            d@ == self@,
    {
        RoomData {
            room_id: self.room_id,
            name: self.name.clone(),
            max_users: self.max_users,
            state: self.state,
        }
    }
}

impl RoomData {
    /// A room that is waiting for users.
    pub fn new(room_id: RoomID, name: String, max_users: usize) -> (d: RoomData)
        ensures
            d@ == (RoomDataView { room_id, name: name@, max_users, state: RoomState::Waiting }),
    {
        RoomData { room_id, name, max_users, state: RoomState::Waiting }
    }
}

/// A room and the users in it, in the order they came in.
#[derive(Debug, PartialEq, Eq)]
pub struct Room {
    pub data: RoomData,
    pub users: Vec<Username>,
}

pub struct RoomView {
    pub data: RoomDataView,
    pub users: Seq<Seq<char>>,
}

impl View for Room {
    type V = RoomView;

    open spec fn view(&self) -> RoomView {
        RoomView { data: self.data@, users: names(self.users@) }
    }
}

/// The users of `users` but `user`, in the same order.
pub open spec fn without_user(users: Seq<Seq<char>>, user: Seq<char>) -> Seq<Seq<char>> {
    users.filter(other_than(user))
}

/// Holds of every user name but `user`.
pub open spec fn other_than(user: Seq<char>) -> spec_fn(Seq<char>) -> bool {
    |u: Seq<char>| u != user
}

/// Clones a list of user names.
pub fn clone_users(users: &Vec<Username>) -> (r: Vec<Username>)
    ensures
        names(r@) == names(users@),
{
    let mut r: Vec<Username> = Vec::new();
    let mut i: usize = 0;
    while i < users.len()
        invariant
            i <= users@.len(),
            names(r@) == names(users@.subrange(0, i as int)),
        decreases users@.len() - i,
    {
        r.push(users[i].clone());
        assert(names(users@.subrange(0, i + 1)) =~= names(users@.subrange(0, i as int)).push(
            users@[i as int]@,
        ));
        assert(names(r@) =~= names(users@.subrange(0, i + 1)));
        i = i + 1;
    }
    assert(users@.subrange(0, users@.len() as int) =~= users@);
    r
}

impl Clone for Room {
    fn clone(&self) -> (r: Room)
        ensures
            r@ == self@,
    {
        Room { data: self.data.clone(), users: clone_users(&self.users) }
    }
}

impl Room {
    /// A new room whose only user is its admin.
    pub fn new(admin: Username, data: RoomData) -> (r: Room)
        ensures
            r@ == (RoomView { data: data@, users: seq![admin@] }),
    {
        let mut users: Vec<Username> = Vec::new();
        users.push(admin);
        let r = Room { data, users };
        assert(r@.users =~= seq![r.users@[0]@]);
        r
    }

    pub fn room_data(&self) -> (d: &RoomData)
        ensures
            d@ == self@.data,
    {
        &self.data
    }

    pub fn users(&self) -> (u: &Vec<Username>)
        ensures
            names(u@) == self@.users,
    {
        &self.users
    }

    /// Whether the room holds as many users as it takes, or more.
    pub fn is_full(&self) -> (b: bool)
        ensures
            b == (self@.users.len() >= self@.data.max_users),
    {
        self.users.len() >= self.data.max_users
    }

    pub fn is_empty(&self) -> (b: bool)
        ensures
            b == (self@.users.len() == 0),
    {
        self.users.len() == 0
    }

    pub fn has_user(&self, user: &Username) -> (b: bool)
        ensures
            b == self@.users.contains(user@),
    {
        let mut i: usize = 0;
        while i < self.users.len()
            invariant
                i <= self.users@.len(),
                forall|j: int| 0 <= j < i ==> self.users@[j]@ != user@,
            decreases self.users@.len() - i,
        {
            if self.users[i].same_as(user) {
                assert(self@.users[i as int] == user@);
                return true;
            }
            i = i + 1;
        }
        proof {
            if self@.users.contains(user@) {
                let j = choose|j: int| 0 <= j < self@.users.len() && self@.users[j] == user@;
                assert(self.users@[j]@ == user@);
            }
        }
        false
    }

    /// Lets `user` in unless already there; answers whether it came in.
    pub fn add_user(&mut self, user: Username) -> (added: bool)
        ensures
            added == !old(self)@.users.contains(user@),
            final(self)@ == (if added {
                RoomView { data: old(self)@.data, users: old(self)@.users.push(user@) }
            } else {
                old(self)@
            }),
    {
        if self.has_user(&user) {
            false
        } else {
            let ghost u = user@;
            self.users.push(user);
            assert(names(self.users@) =~= names(old(self).users@).push(u));
            true
        }
    }

    /// Takes `user` out of the room.
    pub fn remove_user(&mut self, user: &Username)
        ensures
            final(self)@ == (RoomView {
                data: old(self)@.data,
                users: without_user(old(self)@.users, user@),
            }),
    {
        let ghost pred = other_than(user@);
        let mut kept: Vec<Username> = Vec::new();
        let mut i: usize = 0;
        while i < self.users.len()
            invariant
                i <= self.users@.len(),
                names(kept@) == names(self.users@.subrange(0, i as int)).filter(pred),
                pred == other_than(user@),
            decreases self.users@.len() - i,
        {
            let ghost prefix = names(self.users@.subrange(0, i as int));
            let ghost next = names(self.users@.subrange(0, i + 1));
            assert(next =~= prefix.push(self.users@[i as int]@));
            assert(next.drop_last() =~= prefix);
            reveal_with_fuel(Seq::filter, 1);
            if !self.users[i].same_as(user) {
                let ghost before = kept@;
                kept.push(self.users[i].clone());
                assert(names(kept@) =~= names(before).push(self.users@[i as int]@));
            }
            i = i + 1;
        }
        assert(self.users@.subrange(0, self.users@.len() as int) =~= self.users@);
        self.users = kept;
    }
}

/// The rooms of a room manager, by id, and the id the next room gets.
pub struct RoomManagerView {
    pub rooms: Map<RoomID, RoomView>,
    pub next_id: RoomID,
}

/// All rooms of the server.
pub struct RoomManager {
    rooms: HashMap<RoomID, Room>,
    next_id: RoomID,
}

impl View for RoomManager {
    type V = RoomManagerView;

    closed spec fn view(&self) -> RoomManagerView {
        RoomManagerView { rooms: self.rooms@.map_values(|r: Room| r@), next_id: self.next_id }
    }
}

impl RoomManagerView {
    /// Each room is filed under its own id, every id is below the next one
    /// to hand out, and no user is twice in a room.
    pub open spec fn wf(self) -> bool {
        forall|id: RoomID|
            #[trigger] self.rooms.contains_key(id) ==> {
                &&& self.rooms[id].data.room_id == id
                &&& id < self.next_id
                &&& self.rooms[id].users.no_duplicates()
            }
    }
}

/// `rooms` lists every room of `m` once, in some order.
pub open spec fn lists_rooms(rooms: Seq<RoomView>, m: Map<RoomID, RoomView>) -> bool {
    &&& rooms.len() == m.dom().len()
    &&& forall|i: int|
        0 <= i < rooms.len() ==> m.contains_key(#[trigger] rooms[i].data.room_id) && m[rooms[i].data.room_id]
            == rooms[i]
    &&& forall|id: RoomID| #[trigger] m.contains_key(id) ==> rooms.contains(m[id])
}

impl RoomManager {
    pub fn new() -> (m: RoomManager)
        ensures
            m@.rooms == Map::<RoomID, RoomView>::empty(),
            m@.next_id == 0,
            m@.wf(),
    {
        let m = RoomManager { rooms: HashMap::new(), next_id: 0 };
        assert(m@.rooms =~= Map::<RoomID, RoomView>::empty());
        m
    }

    /// Opens a room with `admin` as its only user, under the next free id;
    /// gives `None`, and changes nothing, once every id has been handed out.
    pub fn create_room(&mut self, admin: Username, name: String, max_users: usize) -> (id: Option<RoomID>)
        requires
            old(self)@.wf(),
        ensures
            final(self)@.wf(),
            old(self)@.next_id == RoomID::MAX ==> id is None && final(self)@ == old(self)@,
            old(self)@.next_id < RoomID::MAX ==> {
                &&& id == Some(old(self)@.next_id)
                &&& final(self)@.next_id == old(self)@.next_id + 1
                &&& final(self)@.rooms == old(self)@.rooms.insert(
                    old(self)@.next_id,
                    RoomView {
                        data: RoomDataView {
                            room_id: old(self)@.next_id,
                            name: name@,
                            max_users,
                            state: RoomState::Waiting,
                        },
                        users: seq![admin@],
                    },
                )
            },
    {
        if self.next_id == RoomID::MAX {
            return None;
        }
        let id = self.next_id;
        let room = Room::new(admin, RoomData::new(id, name, max_users));
        self.rooms.insert(id, room);
        self.next_id = id + 1;
        assert(final(self)@.rooms =~= old(self)@.rooms.insert(id, room@)) by {
            assert(self@.rooms =~= old(self)@.rooms.insert(id, room@));
        }
        Some(id)
    }


    /// Copies of all rooms, each once, in no particular order.
    pub fn rooms(&self) -> (r: Vec<Room>)
        requires
            self@.wf(),
        ensures
            lists_rooms(r@.map_values(|x: Room| x@), self@.rooms),
    {
        let mut r: Vec<Room> = Vec::new();
        let ghost m = self.rooms@;
        let ghost s = vstd::std_specs::hash::spec_hash_map_iter(&self.rooms).remaining();
        for pair in it: self.rooms.iter()
            invariant
                m == self.rooms@,
                it.seq() == s,
                r@.len() == it.index(),
                forall|i: int| 0 <= i < r@.len() ==> #[trigger] r@[i]@ == (*s[i].1)@,
        {
            r.push(pair.1.clone());
        }
        proof {
            vstd::std_specs::hash::axiom_spec_hash_map_iter(&self.rooms);
            let rv = r@.map_values(|x: Room| x@);
            let mv = self@.rooms;
            assert(mv.dom() =~= m.dom());
            assert forall|i: int| 0 <= i < rv.len() implies mv.contains_key(
                #[trigger] rv[i].data.room_id,
            ) && mv[rv[i].data.room_id] == rv[i] by {
                let k = *s[i].0;
                assert(m.contains_key(k) && m[k] == *s[i].1);
                assert(mv.contains_key(k));
            }
            assert forall|id: RoomID| #[trigger] mv.contains_key(id) implies rv.contains(mv[id]) by {
                assert(m.contains_key(id));
                assert(s.contains((&id, &m[id])));
                let j = choose|j: int| 0 <= j < s.len() && s[j] == (&id, &m[id]);
                assert(rv[j] == mv[id]);
            }
        }
        r
    }

    /// Closes room `id`, if there is one.
    pub fn delete_room(&mut self, id: RoomID)
        requires
            old(self)@.wf(),
        ensures
            final(self)@.wf(),
            final(self)@.rooms == old(self)@.rooms.remove(id),
            final(self)@.next_id == old(self)@.next_id,
    {
        self.rooms.remove(&id);
        assert(self@.rooms =~= old(self)@.rooms.remove(id));
    }

    /// Room `id`, if there is one.
    pub fn room(&self, id: RoomID) -> (r: Option<&Room>)
        ensures
            r is Some <==> self@.rooms.contains_key(id),
            r matches Some(room) ==> room@ == self@.rooms[id],
    {
        self.rooms.get(&id)
    }

    /// Puts room `id`, if there is one, in `state`.
    pub fn set_state(&mut self, id: RoomID, state: RoomState)
        requires
            old(self)@.wf(),
        ensures
            final(self)@.wf(),
            final(self)@.next_id == old(self)@.next_id,
            final(self)@.rooms == (if old(self)@.rooms.contains_key(id) {
                old(self)@.rooms.insert(
                    id,
                    RoomView {
                        data: RoomDataView { state, ..old(self)@.rooms[id].data },
                        ..old(self)@.rooms[id]
                    },
                )
            } else {
                old(self)@.rooms
            }),
    {
        match self.rooms.remove(&id) {
            Some(mut room) => {
                room.data.state = state;
                self.rooms.insert(id, room);
                assert(self@.rooms =~= old(self)@.rooms.insert(id, room@));
            },
            None => {
                assert(self@.rooms =~= old(self)@.rooms);
            },
        }
    }

    /// Lets `user` into room `id`: `None` when there is no such room, else
    /// whether the user came in (it does not when already there).
    pub fn add_user(&mut self, id: RoomID, user: Username) -> (r: Option<bool>)
        requires
            old(self)@.wf(),
        ensures
            final(self)@.wf(),
            final(self)@.next_id == old(self)@.next_id,
            !old(self)@.rooms.contains_key(id) ==> r is None && final(self)@.rooms == old(self)@.rooms,
            old(self)@.rooms.contains_key(id) ==> {
                let room = old(self)@.rooms[id];
                &&& r == Some(!room.users.contains(user@))
                &&& final(self)@.rooms == (if room.users.contains(user@) {
                    old(self)@.rooms
                } else {
                    old(self)@.rooms.insert(id, RoomView { users: room.users.push(user@), ..room })
                })
            },
    {
        match self.rooms.remove(&id) {
            Some(mut room) => {
                assert(old(self)@.rooms.contains_key(id));
                let added = room.add_user(user);
                self.rooms.insert(id, room);
                assert(self@.rooms =~= old(self)@.rooms.insert(id, room@));
                proof {
                    if !added {
                        assert(self@.rooms =~= old(self)@.rooms);
                    } else {
                        let u = room@.users;
                        let o = old(self)@.rooms[id].users;
                        assert(o.no_duplicates());
                        assert(u == o.push(user@));
                        assert(!o.contains(user@));
                        assert forall|i: int, j: int|
                            0 <= i < u.len() && 0 <= j < u.len() && i != j implies u[i] != u[j] by {
                            if j == u.len() - 1 {
                                assert(u[i] == o[i]);
                            } else if i == u.len() - 1 {
                                assert(u[j] == o[j]);
                            } else {
                                assert(u[i] == o[i] && u[j] == o[j]);
                            }
                        }
                    }
                }
                Some(added)
            },
            None => {
                assert(self@.rooms =~= old(self)@.rooms);
                None
            },
        }
    }

    /// Takes `user` out of room `id`, if there is such a room.
    pub fn remove_user(&mut self, id: RoomID, user: &Username)
        requires
            old(self)@.wf(),
        ensures
            final(self)@.wf(),
            final(self)@.next_id == old(self)@.next_id,
            final(self)@.rooms == (if old(self)@.rooms.contains_key(id) {
                old(self)@.rooms.insert(
                    id,
                    RoomView {
                        users: without_user(old(self)@.rooms[id].users, user@),
                        ..old(self)@.rooms[id]
                    },
                )
            } else {
                old(self)@.rooms
            }),
    {
        match self.rooms.remove(&id) {
            Some(mut room) => {
                assert(old(self)@.rooms.contains_key(id));
                room.remove_user(user);
                proof {
                    lemma_without_user_no_duplicates(old(self)@.rooms[id].users, user@);
                }
                self.rooms.insert(id, room);
                assert(self@.rooms =~= old(self)@.rooms.insert(id, room@));
            },
            None => {
                assert(self@.rooms =~= old(self)@.rooms);
            },
        }
    }
}

/// Taking a user out of a list without repeats leaves a list without repeats.
proof fn lemma_without_user_no_duplicates(users: Seq<Seq<char>>, user: Seq<char>)
    requires
        users.no_duplicates(),
    ensures
        without_user(users, user).no_duplicates(),
    decreases users.len(),
{
    if users.len() > 0 {
        let rest = users.drop_last();
        assert(rest.no_duplicates());
        lemma_without_user_no_duplicates(rest, user);
        reveal_with_fuel(Seq::filter, 1);
        let pred = other_than(user);
        if pred(users.last()) {
            let f = rest.filter(pred);
            assert(without_user(users, user) == f.push(users.last()));
            assert forall|i: int| 0 <= i < f.len() implies f[i] != users.last() by {
                assert(f.contains(f[i]));
                rest.lemma_filter_contains_rev(pred, f[i]);
                let k = choose|k: int| 0 <= k < rest.len() && rest[k] == f[i];
                assert(users[k] == rest[k]);
            }
        }
    }
}

} // verus!
