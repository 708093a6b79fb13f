//! The opening level and the tick: the order in which the phases run.

use vstd::prelude::*;
use crate::types::{Entity, EntityType, GameState, Monster, Player, Pos, Tile, Tint, Trap, trap_glyph_spec};
use crate::map::{generate_map, is_grid};
use crate::registry::{hp_capped, hp_floor, roster_ok, MAX_ENTITIES};
use crate::state::{Game, Input};
use crate::player::{after_player, turn_taken, update_player};
use crate::monsters::{after_monsters, update_monsters};
use crate::traps::{
    after_traps, draw_offsets, lemma_traps_keep_roster, offsets_in_range, resolve_traps_with,
    resolved_prefix, TRAP_DAMAGE,
};
use crate::lifecycle::{after_cleanup, lemma_cleanup_keeps_roster, remove_dead, survivors_prefix};

verus! {

/// The registry as the trap phase finds it in a tick in which a turn is taken.
pub open spec fn before_traps(s: Seq<Entity>, pid: int, input: Input, size: Pos, map: Seq<Tile>) -> Seq<Entity> {
    after_monsters(after_player(s, pid, input, size, map), map, pid)
}

/// The registry as the lifecycle step finds it.
pub open spec fn before_cleanup(
    s: Seq<Entity>,
    pid: int,
    input: Input,
    size: Pos,
    map: Seq<Tile>,
    offs: Seq<Pos>,
) -> Seq<Entity> {
    if turn_taken(s[pid].pos, input, size, map) {
        after_traps(before_traps(s, pid, input, size, map), map, offs)
    } else {
        s
    }
}

/// Where the player stands in the registry that the lifecycle step finds.
pub open spec fn player_before_cleanup(
    s: Seq<Entity>,
    pid: int,
    input: Input,
    size: Pos,
    map: Seq<Tile>,
    offs: Seq<Pos>,
) -> int {
    if turn_taken(s[pid].pos, input, size, map) {
        resolved_prefix(before_traps(s, pid, input, size, map), map, offs, pid).len() as int
    } else {
        pid
    }
}

/// The registry after one tick of a game that is being played.
pub open spec fn tick_entities(
    s: Seq<Entity>,
    pid: int,
    input: Input,
    size: Pos,
    map: Seq<Tile>,
    offs: Seq<Pos>,
) -> Seq<Entity> {
    after_cleanup(before_cleanup(s, pid, input, size, map, offs))
}

/// Where the player stands in the registry after one tick.
pub open spec fn tick_player(
    s: Seq<Entity>,
    pid: int,
    input: Input,
    size: Pos,
    map: Seq<Tile>,
    offs: Seq<Pos>,
) -> int {
    survivors_prefix(
        before_cleanup(s, pid, input, size, map, offs),
        player_before_cleanup(s, pid, input, size, map, offs),
    ).len() as int
}

/// Whether the tick ends the game: the player's health is used up.
pub open spec fn tick_lost(
    s: Seq<Entity>,
    pid: int,
    input: Input,
    size: Pos,
    map: Seq<Tile>,
    offs: Seq<Pos>,
) -> bool {
    before_cleanup(s, pid, input, size, map, offs)[player_before_cleanup(
        s,
        pid,
        input,
        size,
        map,
        offs,
    )].typ.hp_spec() <= 0
}

/// A lost game stays lost: a tick changes nothing of it, whatever the input.
pub proof fn lemma_lost_is_terminal(before: &Game, after: &Game, input: Input, offs: Seq<Pos>)
    requires
        before.game_state == GameState::Lost,
        after.is_tick_of(before, input, offs),
    ensures
        after.game_state == GameState::Lost,
        after.entities@ == before.entities@,
        after.player_id == before.player_id,
        after.map == before.map,
{
}

/// The player as a game opens.
pub open spec fn opening_player() -> Entity {
    Entity {
        pos: Pos { x: 5, y: 3 },
        glyph: '@',
        color: Tint::Orange,
        typ: EntityType::Player(Player { hp: 5, max_hp: 5, status: None }),
    }
}

pub open spec fn goblin_at(x: i32, y: i32) -> Entity {
    Entity {
        pos: Pos { x, y },
        glyph: 'g',
        color: Tint::Red,
        typ: EntityType::Monster(Monster { hp: 1, max_hp: 1, status: None }),
    }
}

pub open spec fn trap_at_cell(x: i32, y: i32, trap: Trap) -> Entity {
    Entity {
        pos: Pos { x, y },
        glyph: trap_glyph_spec(trap),
        color: Tint::Green,
        typ: EntityType::Trap(trap),
    }
}

/// The monsters and traps of the level, in registry order.
pub open spec fn level_roster() -> Seq<Entity> {
    seq![
        goblin_at(9, 10),
        goblin_at(2, 14),
        trap_at_cell(6, 6, Trap::Bump),
        trap_at_cell(8, 8, Trap::Berserk),
        trap_at_cell(3, 8, Trap::Berserk),
        trap_at_cell(9, 8, Trap::Berserk),
        trap_at_cell(7, 6, Trap::Kill),
        trap_at_cell(7, 8, Trap::Kill),
        trap_at_cell(7, 2, Trap::Teleport),
        trap_at_cell(4, 8, Trap::Teleport),
        trap_at_cell(1, 2, Trap::CountDown(3)),
        trap_at_cell(4, 2, Trap::CountDown(1)),
    ]
}

/// Adds the monsters and traps of the level to the registry.
pub fn generate_entities(entities: &mut Vec<Entity>)
    ensures
        final(entities)@ == old(entities)@ + level_roster(),
{
    entities.push(Entity::goblin(Pos::new(9, 10)));
    entities.push(Entity::goblin(Pos::new(2, 14)));
    entities.push(Entity::trap(Pos::new(6, 6), Trap::Bump));
    entities.push(Entity::trap(Pos::new(8, 8), Trap::Berserk));
    entities.push(Entity::trap(Pos::new(3, 8), Trap::Berserk));
    entities.push(Entity::trap(Pos::new(9, 8), Trap::Berserk));
    entities.push(Entity::trap(Pos::new(7, 6), Trap::Kill));
    entities.push(Entity::trap(Pos::new(7, 8), Trap::Kill));
    entities.push(Entity::trap(Pos::new(7, 2), Trap::Teleport));
    entities.push(Entity::trap(Pos::new(4, 8), Trap::Teleport));
    entities.push(Entity::trap(Pos::new(1, 2), Trap::CountDown(3)));
    entities.push(Entity::trap(Pos::new(4, 2), Trap::CountDown(1)));
    assert(entities@ =~= old(entities)@ + level_roster());
}

impl Game {
    /// What one tick makes of `before` on the given input, with `offs` as
    /// the offsets of the Bump triggers: this state. A lost game stays as it
    /// is. In a game being played the player moves; if that took a turn the
    /// monsters move and attack and the traps are resolved; then the game is
    /// lost if the player's health is used up, and dead monsters leave.
    pub open spec fn is_tick_of(&self, before: &Game, input: Input, offs: Seq<Pos>) -> bool {
        let s = before.entities@;
        let pid = before.player_id as int;
        &&& self.map == before.map
        &&& self.map_size == before.map_size
        &&& if before.game_state == GameState::Lost {
            &&& self.game_state == GameState::Lost
            &&& self.entities@ == s
            &&& self.player_id == before.player_id
        } else {
            &&& self.entities@ == tick_entities(s, pid, input, before.map_size, before.map@, offs)
            &&& self.player_id as int == tick_player(s, pid, input, before.map_size, before.map@, offs)
            &&& (self.game_state == GameState::Lost) == tick_lost(
                s,
                pid,
                input,
                before.map_size,
                before.map@,
                offs,
            )
        }
    }

    /// The opening state: a ten by ten map, the player at (5, 3) with five
    /// health points, and the roster of the level behind it.
    pub fn new() -> (game: Game)
        ensures
            game.wf(),
            game.game_state == GameState::Playing,
            game.map_size == (Pos { x: 10, y: 10 }),
            is_grid(game.map@, 10, 10),
            game.player_id == 0,
            game.entities@ == seq![opening_player()] + level_roster(),
    {
        let map_size = Pos { x: 10, y: 10 };
        let map = generate_map(map_size);
        let mut entities: Vec<Entity> = Vec::new();
        entities.push(
            Entity {
                pos: Pos { x: 5, y: 3 },
                glyph: '@',
                color: Tint::Orange,
                typ: EntityType::Player(Player { hp: 5, max_hp: 5, status: None }),
            },
        );
        generate_entities(&mut entities);
        proof {
            let s = entities@;
            assert(s.len() == 13);
            assert(s[0] == opening_player());
            assert forall|i: int| 0 <= i < s.len() implies (#[trigger] s[i]).typ.hp_spec() >= 0
                && s[i].typ.hp_spec() <= s[i].typ.max_hp_spec() && (s[i].typ is Player ==> i == 0) by {
                if i > 0 {
                    assert(s[i] == level_roster()[i - 1]);
                }
            }
        }
        Game { game_state: GameState::Playing, map_size, map, entities, player_id: 0 }
    }

    /// The first half of a tick: the player's turn and, if one was taken,
    /// the monsters' phase with its combat. Returns whether a turn was taken.
    pub fn begin_tick(&mut self, input: &Input) -> (took_turn: bool)
        requires
            old(self).wf(),
            old(self).game_state == GameState::Playing,
        ensures
            took_turn == turn_taken(
                old(self).entities@[old(self).player_id as int].pos,
                *input,
                old(self).map_size,
                old(self).map@,
            ),
            final(self).entities@ == (if took_turn {
                before_traps(
                    old(self).entities@,
                    old(self).player_id as int,
                    *input,
                    old(self).map_size,
                    old(self).map@,
                )
            } else {
                old(self).entities@
            }),
            roster_ok(final(self).entities@, final(self).player_id as int),
            hp_floor(final(self).entities@, -(MAX_ENTITIES as int)),
            hp_capped(final(self).entities@),
            final(self).map == old(self).map,
            final(self).map_size == old(self).map_size,
            final(self).player_id == old(self).player_id,
            final(self).game_state == old(self).game_state,
    {
        let took_turn = update_player(self, input);
        if took_turn {
            update_monsters(self);
        }
        took_turn
    }

    /// The second half of a tick: the traps, if a turn was taken, then the
    /// lifecycle: the game is lost where the player's health is used up, and
    /// monsters without health leave the registry.
    pub fn end_tick(&mut self, took_turn: bool, offsets: &Vec<Pos>)
        requires
            old(self).map_size.x >= 0,
            old(self).map_size.y >= 0,
            old(self).game_state == GameState::Playing,
            roster_ok(old(self).entities@, old(self).player_id as int),
            hp_floor(old(self).entities@, i32::MIN + TRAP_DAMAGE),
            hp_capped(old(self).entities@),
        ensures
            final(self).wf(),
            final(self).settled(),
            final(self).map == old(self).map,
            final(self).map_size == old(self).map_size,
            final(self).entities@ == after_cleanup(
                if took_turn {
                    after_traps(old(self).entities@, old(self).map@, offsets@)
                } else {
                    old(self).entities@
                },
            ),
            final(self).player_id as int == survivors_prefix(
                if took_turn {
                    after_traps(old(self).entities@, old(self).map@, offsets@)
                } else {
                    old(self).entities@
                },
                if took_turn {
                    resolved_prefix(
                        old(self).entities@,
                        old(self).map@,
                        offsets@,
                        old(self).player_id as int,
                    ).len() as int
                } else {
                    old(self).player_id as int
                },
            ).len(),
            (final(self).game_state == GameState::Lost) == ((if took_turn {
                after_traps(old(self).entities@, old(self).map@, offsets@)
            } else {
                old(self).entities@
            })[if took_turn {
                resolved_prefix(
                    old(self).entities@,
                    old(self).map@,
                    offsets@,
                    old(self).player_id as int,
                ).len() as int
            } else {
                old(self).player_id as int
            }].typ.hp_spec() <= 0),
    {
        if took_turn {
            proof {
                lemma_traps_keep_roster(
                    self.entities@,
                    self.map@,
                    offsets@,
                    self.player_id as int,
                    i32::MIN + TRAP_DAMAGE,
                    self.entities@.len() as int,
                );
            }
            self.player_id = resolve_traps_with(&mut self.entities, &self.map, offsets, self.player_id);
        }
        let lost = match self.entities[self.player_id].hp() {
            Ok(hp) => hp <= 0,
            Err(_) => false,
        };
        if lost {
            self.game_state = GameState::Lost;
        }
        proof {
            lemma_cleanup_keeps_roster(
                self.entities@,
                self.player_id as int,
                self.entities@.len() as int,
            );
        }
        self.player_id = remove_dead(&mut self.entities, self.player_id);
    }

    /// One tick with the given offsets for the Bump triggers, `offsets[i]`
    /// for the entity that stands at `i` when the traps are resolved.
    pub fn update_with(&mut self, input: &Input, offsets: &Vec<Pos>)
        requires
            old(self).wf(),
        ensures
            final(self).wf(),
            final(self).is_tick_of(old(self), *input, offsets@),
            old(self).game_state == GameState::Playing ==> final(self).settled(),
    {
        match self.game_state {
            GameState::Playing => {
                let took_turn = self.begin_tick(input);
                self.end_tick(took_turn, offsets);
            },
            GameState::Lost => {},
        }
    }

    /// One tick, the offsets of the Bump triggers drawn at random: the state
    /// ends as `update_with` leaves it for some offsets with each axis -1 or
    /// 0.
    pub fn update(&mut self, input: &Input)
        requires
            old(self).wf(),
        ensures
            final(self).wf(),
            exists|offs: Seq<Pos>|
                offsets_in_range(offs) && #[trigger] final(self).is_tick_of(old(self), *input, offs),
            old(self).game_state == GameState::Playing ==> final(self).settled(),
    {
        match self.game_state {
            GameState::Playing => {
                let took_turn = self.begin_tick(input);
                let offsets = if took_turn {
                    draw_offsets(&self.entities)
                } else {
                    Vec::new()
                };
                self.end_tick(took_turn, &offsets);
                assert(self.is_tick_of(old(self), *input, offsets@));
            },
            GameState::Lost => {
                assert(self.is_tick_of(old(self), *input, Seq::<Pos>::empty()));
            },
        }
    }
}

} // verus!
