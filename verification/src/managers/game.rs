//! Games that are being played, one per room that started.

use std::collections::hash_map::Entry;
use std::collections::HashMap;
use vstd::prelude::*;

use super::room::{clone_users, Room, RoomID};
use crate::constraint::{names, Username};

verus! {

broadcast use vstd::std_specs::hash::group_hash_axioms;

/// A game has the id of the room it started in.
pub type GameID = RoomID;

/// Why an operation on games fails. No operation fails yet: every contract
/// below promises `Ok`, and nothing builds this value.
#[derive(Debug, PartialEq, Eq)]
pub enum GameErrors {
    UnknownGame(GameID),
}

/// What a game keeps of one player.
#[derive(Debug, Clone, Copy, PartialEq, Eq)]
pub struct GameData {}

impl Default for GameData {
    fn default() -> (d: GameData)
        ensures
            d == (GameData {}),
    {
        GameData {}
    }
}

/// A game and its players, each listed once.
pub struct Game {
    id: GameID,
    players: Vec<Username>,
}

pub struct GameView {
    pub id: GameID,
    pub players: Set<Seq<char>>,
}

impl View for Game {
    type V = GameView;

    closed spec fn view(&self) -> GameView {
        GameView { id: self.id, players: names(self.players@).to_set() }
    }
}

impl Game {
    /// No player is listed twice.
    pub closed spec fn wf(&self) -> bool {
        names(self.players@).no_duplicates()
    }

    closed spec fn player_names(&self) -> Seq<Seq<char>> {
        names(self.players@)
    }

    fn has_player(&self, user: &Username) -> (b: bool)
        ensures
            b == self.player_names().contains(user@),
    {
        let mut i: usize = 0;
        while i < self.players.len()
            invariant
                i <= self.players@.len(),
                forall|j: int| 0 <= j < i ==> self.players@[j]@ != user@,
            decreases self.players@.len() - i,
        {
            if self.players[i].same_as(user) {
                assert(self.player_names()[i as int] == user@);
                return true;
            }
            i = i + 1;
        }
        proof {
            if self.player_names().contains(user@) {
                let j = choose|j: int|
                    0 <= j < self.player_names().len() && self.player_names()[j] == user@;
                assert(self.players@[j]@ == user@);
            }
        }
        false
    }

    /// A game in which each of `users` plays, once however often it is listed.
    pub fn new(id: RoomID, users: Vec<Username>) -> (g: Game)
        ensures
            g.wf(),
            g@ == (GameView { id, players: names(users@).to_set() }),
    {
        let mut g = Game { id, players: Vec::new() };
        let mut i: usize = 0;
        while i < users.len()
            invariant
                i <= users@.len(),
                g.id == id,
                g.wf(),
                g.player_names().to_set() == names(users@.subrange(0, i as int)).to_set(),
            decreases users@.len() - i,
        {
            let ghost before = g.player_names();
            let ghost prefix = names(users@.subrange(0, i as int));
            assert(names(users@.subrange(0, i + 1)) =~= prefix.push(users@[i as int]@));
            proof {
                prefix.lemma_push_to_set_commute(users@[i as int]@);
                before.lemma_push_to_set_commute(users@[i as int]@);
            }
            if !g.has_player(&users[i]) {
                g.players.push(users[i].clone());
                assert(g.player_names() =~= before.push(users@[i as int]@));
                assert forall|a: int, b: int|
                    0 <= a < g.player_names().len() && 0 <= b < g.player_names().len() && a
                        != b implies g.player_names()[a] != g.player_names()[b] by {
                    if b == before.len() {
                        assert(g.player_names()[a] == before[a]);
                    } else if a == before.len() {
                        assert(g.player_names()[b] == before[b]);
                    }
                }
                assert(g.player_names().to_set() =~= names(users@.subrange(0, i + 1)).to_set());
            } else {
                assert(before.to_set().contains(users@[i as int]@));
                assert(g.player_names().to_set() =~= names(users@.subrange(0, i + 1)).to_set());
            }
            i = i + 1;
        }
        assert(users@.subrange(0, users@.len() as int) =~= users@);
        g
    }

    pub fn id(&self) -> (id: GameID)
        ensures
            id == self@.id,
    {
        self.id
    }

    /// A player leaving; the game keeps the player, as leaving does not yet
    /// change a game.
    pub fn remove_user(&mut self, user: &Username)
        ensures
            *final(self) == *old(self),
    {
    }

    /// The players, each once, in no particular order.
    pub fn users(&self) -> (u: Vec<Username>)
        requires
            self.wf(),
        ensures
            names(u@).to_set() == self@.players,
            names(u@).no_duplicates(),
    {
        clone_users(&self.players)
    }

    /// Whether no one plays any more; no game counts as empty yet.
    pub fn is_empty(&self) -> (b: bool)
        ensures
            !b,
    {
        false
    }

    /// Whether every player is done; no game counts as finished yet.
    pub fn all_finished(&self) -> (b: bool)
        ensures
            !b,
    {
        false
    }

    /// Each player with what the game keeps of it.
    pub fn results(&self) -> (r: Vec<(Username, GameData)>)
        requires
            self.wf(),
        ensures
            names(r@.map_values(|p: (Username, GameData)| p.0)).to_set() == self@.players,
            names(r@.map_values(|p: (Username, GameData)| p.0)).no_duplicates(),
            forall|i: int| 0 <= i < r@.len() ==> (#[trigger] r@[i]).1 == (GameData {}),
    {
        let mut r: Vec<(Username, GameData)> = Vec::new();
        let mut i: usize = 0;
        while i < self.players.len()
            invariant
                i <= self.players@.len(),
                names(r@.map_values(|p: (Username, GameData)| p.0)) == names(
                    self.players@.subrange(0, i as int),
                ),
                forall|j: int| 0 <= j < r@.len() ==> (#[trigger] r@[j]).1 == (GameData {}),
            decreases self.players@.len() - i,
        {
            let ghost before = r@;
            let u = self.players[i].clone();
            let ghost uv = u;
            r.push((u, GameData::default()));
            assert(r@.map_values(|p: (Username, GameData)| p.0) =~= before.map_values(
                |p: (Username, GameData)| p.0,
            ).push(uv));
            assert(self.players@.subrange(0, i + 1) =~= self.players@.subrange(0, i as int).push(
                self.players@[i as int],
            ));
            assert(uv@ == self.players@[i as int]@);
            assert(names(r@.map_values(|p: (Username, GameData)| p.0)) =~= names(
                before.map_values(|p: (Username, GameData)| p.0),
            ).push(uv@));
            assert(names(self.players@.subrange(0, i + 1)) =~= names(
                self.players@.subrange(0, i as int),
            ).push(self.players@[i as int]@));
            assert(names(r@.map_values(|p: (Username, GameData)| p.0)) =~= names(
                self.players@.subrange(0, i + 1),
            ));
            i = i + 1;
        }
        assert(self.players@.subrange(0, self.players@.len() as int) =~= self.players@);
        r
    }
}

/// All games being played, by id.
pub struct GameManager {
    games: HashMap<GameID, Game>,
}

impl View for GameManager {
    type V = Map<GameID, GameView>;

    closed spec fn view(&self) -> Map<GameID, GameView> {
        self.games@.map_values(|g: Game| g@)
    }
}

impl GameManager {
    /// Each game is filed under its own id and lists no player twice.
    pub closed spec fn wf(&self) -> bool {
        forall|id: GameID|
            #[trigger] self.games@.contains_key(id) ==> self.games@[id].wf() && self.games@[id]@.id
                == id
    }

    /// The games themselves, by id.
    pub closed spec fn games(&self) -> Map<GameID, Game> {
        self.games@
    }

    pub fn new() -> (m: GameManager)
        ensures
            m.wf(),
            m@ == Map::<GameID, GameView>::empty(),
    {
        let m = GameManager { games: HashMap::new() };
        assert(m@ =~= Map::<GameID, GameView>::empty());
        m
    }

    /// Starts the game of `room`, with the room's users as players; where
    /// that room's game already runs, it is kept as it is. Gives that game.
    pub fn create_game(&mut self, room: &Room) -> (r: Result<&Game, GameErrors>)
        requires
            old(self).wf(),
        ensures
            final(self).wf(),
            final(self)@ == (if old(self)@.contains_key(room@.data.room_id) {
                old(self)@
            } else {
                old(self)@.insert(
                    room@.data.room_id,
                    GameView { id: room@.data.room_id, players: room@.users.to_set() },
                )
            }),
            r matches Ok(g) && g@ == final(self)@[room@.data.room_id] && g@.id == room@.data.room_id,
    {
        let game = Game::new(room.data.room_id, clone_users(&room.users));
        let id = game.id;
        let g = self.games.entry(id).or_insert(game);
        Ok(g)
    }

    /// Ends game `id`, if there is one, after handing in its results.
    pub fn delete_game(&mut self, id: &GameID)
        requires
            old(self).wf(),
        ensures
            final(self).wf(),
            final(self)@ == old(self)@.remove(*id),
    {
        // A failed hand-in does not keep the game.
        let _ = self.submit_game_results(id).is_ok();
        self.games.remove(id);
        assert(self@ =~= old(self)@.remove(*id));
    }

    /// Game `game_id`, if there is one.
    pub fn game(&self, game_id: &GameID) -> (g: Option<&Game>)
        requires
            self.wf(),
        ensures
            g is Some <==> self@.contains_key(*game_id),
            g matches Some(game) ==> game@ == self@[*game_id] && game.wf(),
    {
        self.games.get(game_id)
    }

    /// Game `game_id`, if there is one, to change in place.
    pub fn game_mut(&mut self, game_id: &GameID) -> (g: Option<&mut Game>)
        requires
            old(self).wf(),
        ensures
            g is Some <==> old(self)@.contains_key(*game_id),
            g matches Some(game) ==> {
                &&& *game == old(self).games()[*game_id]
                &&& final(self).games() == old(self).games().insert(*game_id, *final(game))
            },
            g is None ==> final(self).games() == old(self).games(),
    {
        match self.games.entry(*game_id) {
            Entry::Occupied(o) => Some(o.into_mut()),
            Entry::Vacant(v) => {
                let _ = v.into_key();
                assert(old(self).games@.remove(*game_id) =~= old(self).games@);
                None
            },
        }
    }

    /// Hands in the results of game `game_id`; there is nowhere to hand them
    /// in yet, so this changes nothing and succeeds.
    pub fn submit_game_results(&mut self, game_id: &GameID) -> (r: Result<(), GameErrors>)
        ensures
            r is Ok,
            *final(self) == *old(self),
    {
        Ok(())
    }

    /// Managers holding the same games have the same view and are alike
    /// well formed.
    pub proof fn lemma_same_games(a: &GameManager, b: &GameManager)
        requires
            a.games() == b.games(),
        ensures
            a@ == b@,
            a.wf() == b.wf(),
    {
        assert(a@ =~= b@);
    }

    /// Putting game `id` back as it was leaves the games as they were.
    pub proof fn lemma_put_back(old_m: &GameManager, new_m: &GameManager, id: GameID)
        requires
            old_m@.contains_key(id),
            new_m.games() == old_m.games().insert(id, old_m.games()[id]),
        ensures
            new_m@ == old_m@,
            new_m.wf() == old_m.wf(),
    {
        assert(new_m.games() =~= old_m.games());
        assert(new_m@ =~= old_m@);
    }
}

} // verus!
