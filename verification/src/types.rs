//! The data the simulation works on: positions, tiles and entities.

use vstd::prelude::*;

verus! {

/// Health points. May go negative between the phases of a tick.
pub type Hp = i32;

/// Index of an entity in the registry.
pub type EntityId = usize;

/// Lifecycle of a game. `Lost` is terminal.
#[derive(Clone, Copy, Debug, PartialEq, Eq)]
pub enum GameState {
    Playing,
    Lost,
}

/// A cell of the grid, or an offset between two cells.
#[derive(Clone, Copy, Debug, PartialEq, Eq)]
pub struct Pos {
    pub x: i32,
    pub y: i32,
}

impl Pos {
    pub fn new(x: i32, y: i32) -> (r: Pos)
        ensures
            r == (Pos { x, y }),
    {
        Pos { x, y }
    }

    /// Whether two positions name the same cell.
    pub fn same(&self, other: &Pos) -> (r: bool)
        ensures
            r == (*self == *other),
    {
        self.x == other.x && self.y == other.y
    }
}

/// Colour tag of a glyph. Presentation only.
#[derive(Clone, Copy, Debug, PartialEq, Eq)]
pub enum Tint {
    White,
    Green,
    Red,
    Orange,
}

/// One cell of the map.
#[derive(Clone, Copy, Debug, PartialEq, Eq)]
pub struct Tile {
    pub pos: Pos,
    pub glyph: char,
    pub color: Tint,
    pub blocks: bool,
}

/// An effect attached to a creature.
#[derive(Clone, Copy, Debug, PartialEq, Eq)]
pub enum Status {
    Berserk,
}

/// The kinds of trap. `CountDown` holds the ticks left before it hurts.
#[derive(Clone, Copy, Debug, PartialEq, Eq)]
pub enum Trap {
    Berserk,
    Kill,
    Bump,
    Teleport,
    CountDown(u8),
}

/// What a monster has besides its place on the grid.
#[derive(Clone, Copy, Debug, PartialEq, Eq)]
pub struct Monster {
    pub hp: Hp,
    pub max_hp: Hp,
    pub status: Option<Status>,
}

/// What the player has besides its place on the grid.
#[derive(Clone, Copy, Debug, PartialEq, Eq)]
pub struct Player {
    pub hp: Hp,
    pub max_hp: Hp,
    pub status: Option<Status>,
}

/// What an entity is. Only the player and the monsters have health.
#[derive(Clone, Copy, Debug, PartialEq, Eq)]
pub enum EntityType {
    Trap(Trap),
    Monster(Monster),
    Player(Player),
}

/// Health was asked of, or taken from, an entity that has none.
#[derive(Clone, Copy, Debug, PartialEq, Eq)]
pub struct InvalidOperation;

/// Glyph shown for a wall tile.
pub const WALL_GLYPH: char = '#';

/// Glyph shown for an open floor tile.
pub const FLOOR_GLYPH: char = '\u{db}';

/// The character code of the glyph of a count-down trap with `n` ticks left:
/// the digit for `n`, continued past '9' and wrapping at 256.
pub open spec fn countdown_code(n: u8) -> u8 {
    if n <= 207 {
        (48 + n) as u8
    } else {
        (n - 208) as u8
    }
}

/// The glyph of a count-down trap with `n` ticks left.
pub open spec fn countdown_glyph_spec(n: u8) -> char {
    countdown_code(n) as char
}

/// The glyph of a count-down trap with `n` ticks left: '0' to '9' for the
/// first ten.
pub fn countdown_glyph(n: u8) -> (c: char)
    ensures
        c == countdown_glyph_spec(n),
{
    let code: u8 = if n <= 207 { 48 + n } else { n - 208 };
    code as char
}

/// The glyph under which a trap of the given kind is shown.
pub open spec fn trap_glyph_spec(trap: Trap) -> char {
    match trap {
        Trap::Kill => '%',
        Trap::Berserk => '*',
        Trap::Bump => '+',
        Trap::Teleport => '!',
        Trap::CountDown(n) => countdown_glyph_spec(n),
    }
}

impl Player {
    pub fn max_hp(&self) -> (r: Hp)
        ensures
            r == self.max_hp,
    {
        self.max_hp
    }

    pub fn hp(&self) -> (r: Hp)
        ensures
            r == self.hp,
    {
        self.hp
    }
}

impl Monster {
    pub fn max_hp(&self) -> (r: Hp)
        ensures
            r == self.max_hp,
    {
        self.max_hp
    }

    pub fn hp(&self) -> (r: Hp)
        ensures
            r == self.hp,
    {
        self.hp
    }
}

impl EntityType {
    pub open spec fn is_monster_spec(self) -> bool {
        self is Monster
    }

    pub open spec fn is_player_spec(self) -> bool {
        self is Player
    }

    pub open spec fn is_trap_spec(self) -> bool {
        self is Trap
    }

    /// Player or monster: the variants that have health and block a cell.
    pub open spec fn is_creature(self) -> bool {
        !(self is Trap)
    }

    /// Health of a creature; 0 for a trap, which has none.
    pub open spec fn hp_spec(self) -> int {
        match self {
            EntityType::Monster(m) => m.hp as int,
            EntityType::Player(p) => p.hp as int,
            EntityType::Trap(_) => 0,
        }
    }

    pub open spec fn max_hp_spec(self) -> int {
        match self {
            EntityType::Monster(m) => m.max_hp as int,
            EntityType::Player(p) => p.max_hp as int,
            EntityType::Trap(_) => 0,
        }
    }

    /// This value with `amount` taken from its health, everything else kept.
    pub open spec fn with_hp_lost(self, amount: int) -> EntityType {
        match self {
            EntityType::Monster(m) => EntityType::Monster(
                Monster { hp: (m.hp - amount) as i32, max_hp: m.max_hp, status: m.status },
            ),
            EntityType::Player(p) => EntityType::Player(
                Player { hp: (p.hp - amount) as i32, max_hp: p.max_hp, status: p.status },
            ),
            EntityType::Trap(t) => EntityType::Trap(t),
        }
    }

    /// This value with its status set to Berserk, everything else kept.
    pub open spec fn with_berserk(self) -> EntityType {
        match self {
            EntityType::Monster(m) => EntityType::Monster(
                Monster { hp: m.hp, max_hp: m.max_hp, status: Some(Status::Berserk) },
            ),
            EntityType::Player(p) => EntityType::Player(
                Player { hp: p.hp, max_hp: p.max_hp, status: Some(Status::Berserk) },
            ),
            EntityType::Trap(t) => EntityType::Trap(t),
        }
    }

    /// A monster at full health.
    pub fn monster(max_hp: Hp) -> (r: EntityType)
        ensures
            r == EntityType::Monster(Monster { hp: max_hp, max_hp: max_hp, status: None }),
    {
        EntityType::Monster(Monster { hp: max_hp, max_hp: max_hp, status: None })
    }

    pub fn trap(trap: Trap) -> (r: EntityType)
        ensures
            r == EntityType::Trap(trap),
    {
        EntityType::Trap(trap)
    }

    pub fn is_monster(&self) -> (r: bool)
        ensures
            r == self.is_monster_spec(),
    {
        match self {
            EntityType::Monster(_) => true,
            _ => false,
        }
    }

    pub fn is_player(&self) -> (r: bool)
        ensures
            r == self.is_player_spec(),
    {
        match self {
            EntityType::Player(_) => true,
            _ => false,
        }
    }

    pub fn is_trap(&self) -> (r: bool)
        ensures
            r == self.is_trap_spec(),
    {
        match self {
            EntityType::Trap(_) => true,
            _ => false,
        }
    }

    /// Takes `amount` from a creature's health. A trap has no health: it is
    /// left as it is and the call is reported as invalid.
    pub fn lose_hp(&mut self, amount: Hp) -> (r: Result<(), InvalidOperation>)
        requires
            i32::MIN <= old(self).hp_spec() - amount <= i32::MAX,
        ensures
            r.is_ok() == old(self).is_creature(),
            *final(self) == old(self).with_hp_lost(amount as int),
    {
        match *self {
            EntityType::Player(p) => {
                *self = EntityType::Player(
                    Player { hp: p.hp - amount, max_hp: p.max_hp, status: p.status },
                );
                Ok(())
            },
            EntityType::Monster(m) => {
                *self = EntityType::Monster(
                    Monster { hp: m.hp - amount, max_hp: m.max_hp, status: m.status },
                );
                Ok(())
            },
            EntityType::Trap(_) => Err(InvalidOperation),
        }
    }

    /// Sets a creature's status to Berserk; a trap is left as it is.
    pub fn go_berserk(&mut self)
        ensures
            *final(self) == old(self).with_berserk(),
    {
        match *self {
            EntityType::Player(p) => {
                *self = EntityType::Player(
                    Player { hp: p.hp, max_hp: p.max_hp, status: Some(Status::Berserk) },
                );
            },
            EntityType::Monster(m) => {
                *self = EntityType::Monster(
                    Monster { hp: m.hp, max_hp: m.max_hp, status: Some(Status::Berserk) },
                );
            },
            EntityType::Trap(_) => {},
        }
    }
}

/// A thing on the grid: the player, a monster or a trap.
#[derive(Clone, Copy, Debug, PartialEq, Eq)]
pub struct Entity {
    pub pos: Pos,
    pub glyph: char,
    pub color: Tint,
    pub typ: EntityType,
}

impl Entity {
    pub open spec fn is_creature(self) -> bool {
        self.typ.is_creature()
    }

    pub open spec fn is_teleport(self) -> bool {
        self.typ == EntityType::Trap(Trap::Teleport)
    }

    /// A trap of the given kind, with the glyph of that kind.
    pub fn trap(pos: Pos, trap: Trap) -> (r: Entity)
        ensures
            r == (Entity {
                pos: pos,
                glyph: trap_glyph_spec(trap),
                color: Tint::Green,
                typ: EntityType::Trap(trap),
            }),
    {
        let chr = match trap {
            Trap::Kill => '%',
            Trap::Berserk => '*',
            Trap::Bump => '+',
            Trap::Teleport => '!',
            Trap::CountDown(n) => countdown_glyph(n),
        };
        Entity { pos: pos, glyph: chr, color: Tint::Green, typ: EntityType::trap(trap) }
    }

    /// A goblin: a monster with one health point.
    pub fn goblin(pos: Pos) -> (r: Entity)
        ensures
            r == (Entity {
                pos: pos,
                glyph: 'g',
                color: Tint::Red,
                typ: EntityType::Monster(Monster { hp: 1, max_hp: 1, status: None }),
            }),
    {
        Entity { pos: pos, glyph: 'g', color: Tint::Red, typ: EntityType::monster(1) }
    }

    /// Greatest health of a creature. A trap has none.
    pub fn max_hp(&self) -> (r: Result<Hp, InvalidOperation>)
        ensures
            r.is_ok() == self.is_creature(),
            r.is_ok() ==> r.unwrap() == self.typ.max_hp_spec(),
    {
        match &self.typ {
            EntityType::Monster(monster) => Ok(monster.max_hp),
            EntityType::Player(player) => Ok(player.max_hp),
            EntityType::Trap(_) => Err(InvalidOperation),
        }
    }

    /// Present health of a creature. A trap has none.
    pub fn hp(&self) -> (r: Result<Hp, InvalidOperation>)
        ensures
            r.is_ok() == self.is_creature(),
            r.is_ok() ==> r.unwrap() == self.typ.hp_spec(),
    {
        match &self.typ {
            EntityType::Monster(monster) => Ok(monster.hp),
            EntityType::Player(player) => Ok(player.hp),
            EntityType::Trap(_) => Err(InvalidOperation),
        }
    }
}

} // verus!
