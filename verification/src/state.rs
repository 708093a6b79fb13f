//! The state of a game between two ticks, and what makes it valid.

use vstd::prelude::*;
use crate::types::{Entity, EntityType, GameState, Hp, Pos, Tile};
use crate::registry::{hp_capped, hp_floor, roster_ok, MAX_ENTITIES};
use crate::lifecycle::no_dead;

verus! {

/// The directional keys pressed for one tick.
#[derive(Clone, Copy, Debug, PartialEq, Eq)]
pub struct Input {
    pub left: bool,
    pub right: bool,
    pub up: bool,
    pub down: bool,
}

impl Input {
    /// Whether any directional key is pressed.
    pub open spec fn any(self) -> bool {
        self.left || self.right || self.up || self.down
    }
}

/// The whole state of a game between two ticks.
pub struct Game {
    pub game_state: GameState,
    pub map_size: Pos,
    pub map: Vec<Tile>,
    pub entities: Vec<Entity>,
    pub player_id: usize,
}

impl Game {
    /// The state is one that a tick can start from: the map has a size, the
    /// player is where `player_id` says, no creature has more health than its
    /// greatest health, and while the game is being played none has
    /// negative health.
    pub open spec fn wf(&self) -> bool {
        &&& self.map_size.x >= 0
        &&& self.map_size.y >= 0
        &&& roster_ok(self.entities@, self.player_id as int)
        &&& hp_capped(self.entities@)
        &&& self.game_state == GameState::Playing ==> hp_floor(self.entities@, 0)
    }

    /// The player's present health.
    pub open spec fn player_hp(&self) -> int {
        self.entities@[self.player_id as int].typ.hp_spec()
    }

    /// The state is one that a tick leaves behind: no dead monster is in the
    /// registry, and the game is lost exactly if the player's health is used
    /// up.
    pub open spec fn settled(&self) -> bool {
        &&& no_dead(self.entities@)
        &&& (self.game_state == GameState::Lost) == (self.player_hp() <= 0)
    }

    /// Present and greatest health of the entity that `player_id` names, for
    /// a health bar.
    pub fn player_health(&self) -> (r: (Hp, Hp))
        requires
            self.player_id < self.entities@.len(),
        ensures
            r.0 == self.entities@[self.player_id as int].typ.hp_spec(),
            r.1 == self.entities@[self.player_id as int].typ.max_hp_spec(),
    {
        match self.entities[self.player_id].typ {
            EntityType::Player(player) => (player.hp(), player.max_hp()),
            EntityType::Monster(monster) => (monster.hp(), monster.max_hp()),
            EntityType::Trap(_) => (0, 0),
        }
    }

    /// Whether the state is one that a tick can start from.
    pub fn is_valid(&self) -> (r: bool)
        ensures
            r == self.wf(),
    {
        if self.map_size.x < 0 || self.map_size.y < 0 {
            return false;
        }
        if self.player_id >= self.entities.len() || self.entities.len() > MAX_ENTITIES {
            return false;
        }
        if !self.entities[self.player_id].typ.is_player() {
            return false;
        }
        let playing = match self.game_state {
            GameState::Playing => true,
            GameState::Lost => false,
        };
        let mut i: usize = 0;
        while i < self.entities.len()
            invariant
                i <= self.entities@.len(),
                self.player_id < self.entities@.len(),
                playing == (self.game_state == GameState::Playing),
                forall|j: int|
                    0 <= j < i && (#[trigger] self.entities@[j]).typ is Player ==> j
                        == self.player_id,
                playing ==> forall|j: int|
                    0 <= j < i ==> (#[trigger] self.entities@[j]).typ.hp_spec() >= 0,
                forall|j: int|
                    0 <= j < i ==> (#[trigger] self.entities@[j]).typ.hp_spec()
                        <= self.entities@[j].typ.max_hp_spec(),
            decreases self.entities@.len() - i,
        {
            let e = self.entities[i];
            if e.typ.is_player() && i != self.player_id {
                return false;
            }
            let low = match e.hp() {
                Ok(hp) => hp < 0,
                Err(_) => false,
            };
            if playing && low {
                return false;
            }
            let over = match (e.hp(), e.max_hp()) {
                (Ok(hp), Ok(max_hp)) => hp > max_hp,
                _ => false,
            };
            if over {
                return false;
            }
            i = i + 1;
        }
        true
    }
}

} // verus!
