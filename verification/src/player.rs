//! The player's turn: one directional intent, clamped to the grid and
//! reverted where the destination is blocked.

use vstd::prelude::*;
use crate::types::{Entity, Pos};
use crate::map::{blocked_spec, blocked_tile, clamp, clamp_spec};
use crate::state::{Game, Input};

verus! {

/// One coordinate after the keys of its axis: first the decreasing key, then
/// the increasing one, each clamped to `[0, limit - 1]` as soon as applied.
pub open spec fn step_axis(v: int, dec: bool, inc: bool, limit: int) -> int {
    let a = if dec { clamp_spec(0, limit - 1, v - 1) } else { v };
    if inc { clamp_spec(0, limit - 1, a + 1) } else { a }
}

/// The cell that the pressed keys lead to from `pos` on a grid of `size`.
pub open spec fn player_target(pos: Pos, input: Input, size: Pos) -> Pos {
    Pos {
        x: step_axis(pos.x as int, input.left, input.right, size.x as int) as i32,
        y: step_axis(pos.y as int, input.up, input.down, size.y as int) as i32,
    }
}

/// A turn is taken when a key is pressed and the cell it leads to is free.
pub open spec fn turn_taken(pos: Pos, input: Input, size: Pos, map: Seq<crate::types::Tile>) -> bool {
    input.any() && !blocked_spec(map, player_target(pos, input, size))
}

/// The registry after the player's turn: the player stands on the target
/// cell where the turn is taken, and nothing else changes.
pub open spec fn after_player(
    s: Seq<Entity>,
    pid: int,
    input: Input,
    size: Pos,
    map: Seq<crate::types::Tile>,
) -> Seq<Entity> {
    if turn_taken(s[pid].pos, input, size, map) {
        s.update(
            pid,
            Entity {
                pos: player_target(s[pid].pos, input, size),
                glyph: s[pid].glyph,
                color: s[pid].color,
                typ: s[pid].typ,
            },
        )
    } else {
        s
    }
}

/// The player's target lies inside a grid with at least one cell, along each
/// axis on which a key is pressed or on which the player stood inside; and
/// from inside the grid it is at most one cell away along each axis.
pub proof fn lemma_player_target_in_grid(pos: Pos, input: Input, size: Pos)
    requires
        size.x >= 1,
        size.y >= 1,
    ensures
        input.left || input.right || 0 <= pos.x < size.x ==> 0 <= player_target(pos, input, size).x
            < size.x,
        input.up || input.down || 0 <= pos.y < size.y ==> 0 <= player_target(pos, input, size).y
            < size.y,
        0 <= pos.x < size.x ==> -1 <= player_target(pos, input, size).x - pos.x <= 1,
        0 <= pos.y < size.y ==> -1 <= player_target(pos, input, size).y - pos.y <= 1,
{
}

/// A move onto a blocked tile is no turn, and leaves the registry as it was.
pub proof fn lemma_blocked_move_reverts(
    s: Seq<Entity>,
    pid: int,
    input: Input,
    size: Pos,
    map: Seq<crate::types::Tile>,
)
    requires
        0 <= pid < s.len(),
        blocked_spec(map, player_target(s[pid].pos, input, size)),
    ensures
        !turn_taken(s[pid].pos, input, size, map),
        after_player(s, pid, input, size, map) == s,
{
}

fn step_coordinate(v: i32, dec: bool, inc: bool, limit: i32) -> (r: i32)
    requires
        limit >= 0,
    ensures
        r == step_axis(v as int, dec, inc, limit as int),
{
    let max: i64 = limit as i64 - 1;
    let mut a: i64 = v as i64;
    if dec {
        a = clamp(0, max, a - 1);
    }
    if inc {
        a = clamp(0, max, a + 1);
    }
    a as i32
}

/// Moves the player as the pressed keys ask. Returns whether a turn was
/// taken; where none was, the player stands where it stood.
pub fn update_player(game: &mut Game, input: &Input) -> (took_turn: bool)
    requires
        old(game).player_id < old(game).entities@.len(),
        old(game).map_size.x >= 0,
        old(game).map_size.y >= 0,
    ensures
        took_turn == turn_taken(
            old(game).entities@[old(game).player_id as int].pos,
            *input,
            old(game).map_size,
            old(game).map@,
        ),
        final(game).entities@ == after_player(
            old(game).entities@,
            old(game).player_id as int,
            *input,
            old(game).map_size,
            old(game).map@,
        ),
        final(game).map == old(game).map,
        final(game).map_size == old(game).map_size,
        final(game).player_id == old(game).player_id,
        final(game).game_state == old(game).game_state,
{
    let player = game.entities[game.player_id];
    let pressed = input.left || input.right || input.up || input.down;
    let target = Pos {
        x: step_coordinate(player.pos.x, input.left, input.right, game.map_size.x),
        y: step_coordinate(player.pos.y, input.up, input.down, game.map_size.y),
    };
    if !pressed || blocked_tile(target, &game.map) {
        return false;
    }
    let moved = Entity { pos: target, glyph: player.glyph, color: player.color, typ: player.typ };
    game.entities.set(game.player_id, moved);
    true
}

} // verus!
