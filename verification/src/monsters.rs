//! The monsters' phase: every monster takes one step toward the player, and
//! the attacks that the steps give rise to are applied afterwards.
//!
//! Whether a cell is occupied is read from the registry as it was when the
//! phase began. A cell that an earlier monster has moved onto in this phase
//! is taken too, so of two monsters that head for one free cell the earlier
//! one gets it.

use vstd::prelude::*;
use crate::types::{Entity, EntityId, Pos, Tile};
use crate::map::{blocked_spec, blocked_tile};
use crate::registry::{creature_at, find_index, hp_floor, lemma_first_from};
use crate::state::Game;

verus! {

/// Health that one attack takes.
pub const ATTACK_DAMAGE: i32 = 1;

pub open spec fn sign(d: int) -> int {
    if d > 0 {
        1
    } else if d < 0 {
        -1
    } else {
        0
    }
}

/// The cell one step from `from` toward `player`, each axis on its own.
pub open spec fn chase_target(from: Pos, player: Pos) -> Pos {
    Pos {
        x: (from.x + sign(player.x - from.x)) as i32,
        y: (from.y + sign(player.y - from.y)) as i32,
    }
}

pub open spec fn abs_diff(a: int, b: int) -> int {
    if a >= b {
        a - b
    } else {
        b - a
    }
}

/// Chebyshev distance: the greater of the distances along the two axes.
pub open spec fn chebyshev(a: Pos, b: Pos) -> int {
    let dx = abs_diff(a.x as int, b.x as int);
    let dy = abs_diff(a.y as int, b.y as int);
    if dx >= dy {
        dx
    } else {
        dy
    }
}

/// `e` moved to `pos`.
pub open spec fn moved_to(e: Entity, pos: Pos) -> Entity {
    Entity { pos: pos, glyph: e.glyph, color: e.color, typ: e.typ }
}

/// The player whom monster `i` attacks: its step leads to a free tile on
/// which the first creature is the player.
pub open spec fn attack_target(snap: Seq<Entity>, map: Seq<Tile>, pid: int, i: int) -> Option<int> {
    let dest = chase_target(snap[i].pos, snap[pid].pos);
    if snap[i].typ is Monster && !blocked_spec(map, dest) {
        match creature_at(snap, dest) {
            Some(t) => if snap[t].typ is Player {
                Some(t)
            } else {
                None
            },
            None => None,
        }
    } else {
        None
    }
}

/// Monster `i` takes its step: the tile is not blocked, no creature stood on
/// it when the phase began, and none stands on it in `live`, the registry as
/// the monsters before `i` have left it.
pub open spec fn commits(snap: Seq<Entity>, live: Seq<Entity>, map: Seq<Tile>, pid: int, i: int) -> bool {
    let dest = chase_target(snap[i].pos, snap[pid].pos);
    &&& snap[i].typ is Monster
    &&& !blocked_spec(map, dest)
    &&& creature_at(snap, dest).is_none()
    &&& creature_at(live, dest).is_none()
}

/// The registry after entity `i` has had its turn.
pub open spec fn ai_step(snap: Seq<Entity>, live: Seq<Entity>, map: Seq<Tile>, pid: int, i: int) -> Seq<Entity> {
    if commits(snap, live, map, pid, i) {
        live.update(i, moved_to(live[i], chase_target(snap[i].pos, snap[pid].pos)))
    } else {
        live
    }
}

/// The registry after the first `k` entities have had their turn.
pub open spec fn ai_prefix(snap: Seq<Entity>, map: Seq<Tile>, pid: int, k: int) -> Seq<Entity>
    decreases k,
{
    if k <= 0 {
        snap
    } else {
        ai_step(snap, ai_prefix(snap, map, pid, k - 1), map, pid, k - 1)
    }
}

/// The attacks that the first `k` entities have given rise to, each as
/// attacker and target, in registry order.
pub open spec fn attacks_prefix(snap: Seq<Entity>, map: Seq<Tile>, pid: int, k: int) -> Seq<(EntityId, EntityId)>
    decreases k,
{
    if k <= 0 {
        Seq::empty()
    } else {
        let before = attacks_prefix(snap, map, pid, k - 1);
        match attack_target(snap, map, pid, k - 1) {
            Some(t) => before.push(((k - 1) as usize, t as usize)),
            None => before,
        }
    }
}

/// `e` with the damage of one attack taken.
pub open spec fn struck(e: Entity) -> Entity {
    Entity { pos: e.pos, glyph: e.glyph, color: e.color, typ: e.typ.with_hp_lost(ATTACK_DAMAGE as int) }
}

/// The registry after the first `k` attacks of the list: each takes
/// `ATTACK_DAMAGE` from its target. An attack whose target is not in the
/// registry does nothing.
pub open spec fn apply_attacks(s: Seq<Entity>, attacks: Seq<(EntityId, EntityId)>, k: int) -> Seq<Entity>
    decreases k,
{
    if k <= 0 {
        s
    } else {
        let before = apply_attacks(s, attacks, k - 1);
        let t = attacks[k - 1].1 as int;
        if 0 <= t < before.len() {
            before.update(t, struck(before[t]))
        } else {
            before
        }
    }
}

/// The registry after the monsters' phase and the combat that follows it.
pub open spec fn after_monsters(snap: Seq<Entity>, map: Seq<Tile>, pid: int) -> Seq<Entity> {
    let attacks = attacks_prefix(snap, map, pid, snap.len() as int);
    apply_attacks(ai_prefix(snap, map, pid, snap.len() as int), attacks, attacks.len() as int)
}

/// Two registries hold the same cast: as many entities, each of the kind and
/// greatest health it had, and none with more than `loss` less health than
/// it had, nor with more.
pub open spec fn same_cast(before: Seq<Entity>, after: Seq<Entity>, loss: int) -> bool {
    &&& after.len() == before.len()
    &&& forall|j: int|
        0 <= j < before.len() ==> {
            &&& ((#[trigger] after[j]).typ is Player) == (before[j].typ is Player)
            &&& (after[j].typ is Monster) == (before[j].typ is Monster)
            &&& before[j].typ.hp_spec() - loss <= after[j].typ.hp_spec() <= before[j].typ.hp_spec()
            &&& after[j].typ.max_hp_spec() == before[j].typ.max_hp_spec()
        }
}

/// One step from `from` toward `player`.
pub fn chase_step(from: Pos, player: Pos) -> (r: Pos)
    ensures
        r == chase_target(from, player),
{
    let dx: i32 = if player.x > from.x { 1 } else if player.x < from.x { -1 } else { 0 };
    let dy: i32 = if player.y > from.y { 1 } else if player.y < from.y { -1 } else { 0 };
    Pos { x: from.x + dx, y: from.y + dy }
}

/// Applies every attack of the list: the target of each loses
/// `ATTACK_DAMAGE`.
pub fn resolve_combat(entities: &mut Vec<Entity>, attacks: &Vec<(EntityId, EntityId)>)
    requires
        hp_floor(old(entities)@, i32::MIN + attacks@.len()),
    ensures
        final(entities)@ == apply_attacks(old(entities)@, attacks@, attacks@.len() as int),
        same_cast(old(entities)@, final(entities)@, attacks@.len() as int),
{
    let mut k: usize = 0;
    while k < attacks.len()
        invariant
            k <= attacks@.len(),
            entities@.len() == old(entities)@.len(),
            entities@ == apply_attacks(old(entities)@, attacks@, k as int),
            hp_floor(entities@, i32::MIN + attacks@.len() - k),
            same_cast(old(entities)@, entities@, k as int),
        decreases attacks@.len() - k,
    {
        let t = attacks[k].1;
        if t < entities.len() {
            let e = entities[t];
            let mut typ = e.typ;
            let _ = typ.lose_hp(ATTACK_DAMAGE);
            let ghost before = entities@;
            entities.set(t, Entity { pos: e.pos, glyph: e.glyph, color: e.color, typ: typ });
            proof {
                assert forall|j: int| 0 <= j < entities@.len() implies (
                #[trigger] entities@[j]).typ.hp_spec() >= i32::MIN + attacks@.len() - (k + 1) by {
                    assert(before[j].typ.hp_spec() >= i32::MIN + attacks@.len() - k);
                }
            }
        }
        k = k + 1;
    }
}

/// Moves every monster one step toward the player, in registry order, and
/// then applies the attacks of those whose step led onto the player.
pub fn update_monsters(game: &mut Game)
    requires
        old(game).player_id < old(game).entities@.len(),
        hp_floor(old(game).entities@, i32::MIN + old(game).entities@.len()),
    ensures
        final(game).entities@ == after_monsters(
            old(game).entities@,
            old(game).map@,
            old(game).player_id as int,
        ),
        same_cast(old(game).entities@, final(game).entities@, old(game).entities@.len() as int),
        final(game).map == old(game).map,
        final(game).map_size == old(game).map_size,
        final(game).player_id == old(game).player_id,
        final(game).game_state == old(game).game_state,
{
    let snap = game.entities.clone();
    assert(snap@ == old(game).entities@);
    let player = snap[game.player_id];
    let ghost pid = game.player_id as int;
    let mut attacks: Vec<(EntityId, EntityId)> = Vec::new();
    let mut i: usize = 0;
    while i < snap.len()
        invariant
            i <= snap@.len(),
            0 <= pid < snap@.len(),
            player == snap@[pid],
            game.entities@.len() == snap@.len(),
            game.entities@ == ai_prefix(snap@, old(game).map@, pid, i as int),
            attacks@ == attacks_prefix(snap@, old(game).map@, pid, i as int),
            attacks@.len() <= i,
            forall|j: int| 0 <= j < snap@.len() ==> (#[trigger] game.entities@[j]).typ == snap@[j].typ,
            game.map == old(game).map,
            game.map_size == old(game).map_size,
            game.player_id == old(game).player_id,
            game.game_state == old(game).game_state,
        decreases snap@.len() - i,
    {
        if snap[i].typ.is_monster() {
            let dest = chase_step(snap[i].pos, player.pos);
            if !blocked_tile(dest, &game.map) {
                match find_index(dest, &snap, false) {
                    Some(t) => {
                        if snap[t].typ.is_player() {
                            attacks.push((i, t));
                        }
                    },
                    None => {
                        if find_index(dest, &game.entities, false).is_none() {
                            let e = game.entities[i];
                            game.entities.set(
                                i,
                                Entity { pos: dest, glyph: e.glyph, color: e.color, typ: e.typ },
                            );
                        }
                    },
                }
            }
        }
        i = i + 1;
    }
    proof {
        assert forall|j: int| 0 <= j < game.entities@.len() implies (
        #[trigger] game.entities@[j]).typ.hp_spec() >= i32::MIN + attacks@.len() by {
            assert(game.entities@[j].typ == snap@[j].typ);
            assert(snap@[j].typ.hp_spec() >= i32::MIN + snap@.len());
        }
    }
    resolve_combat(&mut game.entities, &attacks);
}

/// A monster's step moves it by at most one cell along each axis, never onto
/// a blocked tile, and changes its Chebyshev distance to the player by at
/// most one.
pub proof fn lemma_monster_step(snap: Seq<Entity>, live: Seq<Entity>, map: Seq<Tile>, pid: int, i: int)
    requires
        0 <= pid < snap.len(),
        0 <= i < snap.len(),
        live.len() == snap.len(),
        live[i] == snap[i],
    ensures
        ({
            let before = snap[i].pos;
            let after = ai_step(snap, live, map, pid, i)[i].pos;
            let player = snap[pid].pos;
            &&& -1 <= after.x - before.x <= 1
            &&& -1 <= after.y - before.y <= 1
            &&& after != before ==> !blocked_spec(map, after)
            &&& -1 <= chebyshev(after, player) - chebyshev(before, player) <= 1
        }),
{
}

/// Turns change positions only, one entity at a time: after `k` turns the
/// registry is as long as it was, every entity is of the kind and health it
/// had, and those whose turn is still to come stand where they stood.
pub proof fn lemma_ai_frame(snap: Seq<Entity>, map: Seq<Tile>, pid: int, k: int)
    requires
        0 <= k <= snap.len(),
    ensures
        ai_prefix(snap, map, pid, k).len() == snap.len(),
        forall|j: int|
            0 <= j < snap.len() ==> (#[trigger] ai_prefix(snap, map, pid, k)[j]).typ == snap[j].typ,
        forall|j: int| k <= j < snap.len() ==> #[trigger] ai_prefix(snap, map, pid, k)[j] == snap[j],
    decreases k,
{
    if k > 0 {
        lemma_ai_frame(snap, map, pid, k - 1);
    }
}

/// Once an entity has had its turn, the turns of the later ones leave it
/// where it is.
pub proof fn lemma_ai_settled(snap: Seq<Entity>, map: Seq<Tile>, pid: int, j: int, k: int)
    requires
        0 <= j < k <= snap.len(),
    ensures
        ai_prefix(snap, map, pid, k)[j] == ai_prefix(snap, map, pid, j + 1)[j],
    decreases k,
{
    if k > j + 1 {
        lemma_ai_settled(snap, map, pid, j, k - 1);
        lemma_ai_frame(snap, map, pid, k - 1);
    }
}

/// Attacks change health only: every entity stands where it stood.
pub proof fn lemma_attacks_keep_positions(s: Seq<Entity>, attacks: Seq<(EntityId, EntityId)>, k: int)
    requires
        0 <= k <= attacks.len(),
    ensures
        apply_attacks(s, attacks, k).len() == s.len(),
        forall|j: int| 0 <= j < s.len() ==> (#[trigger] apply_attacks(s, attacks, k)[j]).pos == s[j].pos,
    decreases k,
{
    if k > 0 {
        lemma_attacks_keep_positions(s, attacks, k - 1);
    }
}

/// Of two monsters that head for the same free cell, the one that stands
/// earlier in the registry has it after the phase, and the later one stands
/// where it stood. The cell is free: not blocked, without a creature when the
/// phase began, and not taken by a monster that moved before the earlier one.
pub proof fn lemma_contested_cell(snap: Seq<Entity>, map: Seq<Tile>, pid: int, a: int, b: int)
    requires
        0 <= pid < snap.len(),
        0 <= a < b < snap.len(),
        snap[a].typ is Monster,
        snap[b].typ is Monster,
        chase_target(snap[a].pos, snap[pid].pos) == chase_target(snap[b].pos, snap[pid].pos),
        !blocked_spec(map, chase_target(snap[a].pos, snap[pid].pos)),
        creature_at(snap, chase_target(snap[a].pos, snap[pid].pos)).is_none(),
        creature_at(ai_prefix(snap, map, pid, a), chase_target(snap[a].pos, snap[pid].pos)).is_none(),
    ensures
        after_monsters(snap, map, pid)[a].pos == chase_target(snap[a].pos, snap[pid].pos),
        after_monsters(snap, map, pid)[b].pos == snap[b].pos,
{
    let cell = chase_target(snap[a].pos, snap[pid].pos);
    let n = snap.len() as int;
    lemma_ai_frame(snap, map, pid, a);
    assert(ai_prefix(snap, map, pid, a + 1)[a].pos == cell);
    lemma_ai_settled(snap, map, pid, a, n);
    lemma_ai_settled(snap, map, pid, a, b);
    lemma_ai_frame(snap, map, pid, b);
    let live = ai_prefix(snap, map, pid, b);
    assert(live[a].pos == cell && live[a].typ is Monster);
    lemma_first_from(live, cell, false, 0);
    assert(creature_at(live, cell).is_some());
    assert(ai_prefix(snap, map, pid, b + 1)[b] == snap[b]);
    lemma_ai_settled(snap, map, pid, b, n);
    lemma_ai_frame(snap, map, pid, n);
    let attacks = attacks_prefix(snap, map, pid, n);
    lemma_attacks_keep_positions(ai_prefix(snap, map, pid, n), attacks, attacks.len() as int);
}

} // verus!
