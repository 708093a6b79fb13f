//! Trap resolution: what standing on a trap does to a creature, and what
//! being stood on does to the trap.
//!
//! Every decision reads the registry as it was when the phase began; the new
//! registry is built from it entity by entity, so no effect can disturb
//! another one.

use vstd::prelude::*;
use crate::types::{countdown_glyph, countdown_glyph_spec, Entity, EntityId, EntityType, Pos, Tile, Trap};
use crate::map::{attempt_move, attempt_move_spec};
use crate::registry::{creature_at, find_index, hp_capped, hp_floor, lemma_first_from, roster_ok, trap_at};

verus! {

/// Health that a Kill trap, or a count-down trap that has run out, takes.
pub const TRAP_DAMAGE: i32 = 5;

/// The `k`-th index of a walk through `n` entities that starts right after
/// `t` and wraps round to end on `t` itself.
pub open spec fn cyclic_index(t: int, k: int, n: int) -> int {
    if t + 1 + k < n {
        t + 1 + k
    } else {
        t + 1 + k - n
    }
}

/// The first Teleport trap met on the walk that starts after `t`, from its
/// `k`-th step on.
pub open spec fn scan_teleport(snap: Seq<Entity>, t: int, k: int) -> Option<int>
    decreases snap.len() - k,
{
    if k < 0 || k >= snap.len() {
        None
    } else if snap[cyclic_index(t, k, snap.len() as int)].is_teleport() {
        Some(cyclic_index(t, k, snap.len() as int))
    } else {
        scan_teleport(snap, t, k + 1)
    }
}

/// The offset drawn for entity `i`; none was drawn where the list is short.
pub open spec fn offset_at(offs: Seq<Pos>, i: int) -> Pos {
    if 0 <= i < offs.len() {
        offs[i]
    } else {
        Pos { x: 0, y: 0 }
    }
}

/// Creature `i` after the trap it stands on, if any, has had its effect.
/// `off` is the offset drawn for it, which only a Bump trap uses.
pub open spec fn creature_outcome(snap: Seq<Entity>, map: Seq<Tile>, i: int, off: Pos) -> Entity {
    let e = snap[i];
    match trap_at(snap, e.pos) {
        None => e,
        Some(t) => match snap[t].typ {
            EntityType::Trap(Trap::Berserk) => Entity {
                pos: e.pos,
                glyph: e.glyph,
                color: e.color,
                typ: e.typ.with_berserk(),
            },
            EntityType::Trap(Trap::Kill) => Entity {
                pos: e.pos,
                glyph: e.glyph,
                color: e.color,
                typ: e.typ.with_hp_lost(TRAP_DAMAGE as int),
            },
            EntityType::Trap(Trap::Teleport) => match scan_teleport(snap, t, 0) {
                Some(d) => Entity { pos: snap[d].pos, glyph: e.glyph, color: e.color, typ: e.typ },
                None => e,
            },
            EntityType::Trap(Trap::Bump) => Entity {
                pos: attempt_move_spec(e.pos, off, map),
                glyph: e.glyph,
                color: e.color,
                typ: e.typ,
            },
            EntityType::Trap(Trap::CountDown(n)) => if n == 0 {
                Entity {
                    pos: e.pos,
                    glyph: e.glyph,
                    color: e.color,
                    typ: e.typ.with_hp_lost(TRAP_DAMAGE as int),
                }
            } else {
                e
            },
            _ => e,
        },
    }
}

/// Trap `t` is triggered: it is the first trap on its cell and a creature
/// stands there.
pub open spec fn triggered(snap: Seq<Entity>, t: int) -> bool {
    trap_at(snap, snap[t].pos) == Some(t) && creature_at(snap, snap[t].pos).is_some()
}

/// Creature `i` stands on a Bump trap, so an offset is drawn for it.
pub open spec fn bump_triggered(snap: Seq<Entity>, i: int) -> bool {
    snap[i].is_creature() && match trap_at(snap, snap[i].pos) {
        Some(t) => snap[t].typ == EntityType::Trap(Trap::Bump),
        None => false,
    }
}

/// Trap `t` after the phase: a triggered Kill trap is gone, a triggered
/// count-down trap with time left has one tick less, any other trap is as it
/// was.
pub open spec fn trap_outcome(snap: Seq<Entity>, t: int) -> Option<Entity> {
    if !triggered(snap, t) {
        Some(snap[t])
    } else {
        match snap[t].typ {
            EntityType::Trap(Trap::Kill) => None,
            EntityType::Trap(Trap::CountDown(n)) => if n > 0 {
                Some(
                    Entity {
                        pos: snap[t].pos,
                        glyph: countdown_glyph_spec((n - 1) as u8),
                        color: snap[t].color,
                        typ: EntityType::Trap(Trap::CountDown((n - 1) as u8)),
                    },
                )
            } else {
                Some(snap[t])
            },
            _ => Some(snap[t]),
        }
    }
}

/// Entity `i` after the phase, or `None` where it leaves the registry.
pub open spec fn entity_outcome(snap: Seq<Entity>, map: Seq<Tile>, i: int, off: Pos) -> Option<Entity> {
    if snap[i].is_creature() {
        Some(creature_outcome(snap, map, i, off))
    } else {
        trap_outcome(snap, i)
    }
}

/// The outcomes of the first `k` entities, in their order.
pub open spec fn resolved_prefix(snap: Seq<Entity>, map: Seq<Tile>, offs: Seq<Pos>, k: int) -> Seq<Entity>
    decreases k,
{
    if k <= 0 {
        Seq::empty()
    } else {
        let before = resolved_prefix(snap, map, offs, k - 1);
        match entity_outcome(snap, map, k - 1, offset_at(offs, k - 1)) {
            Some(e) => before.push(e),
            None => before,
        }
    }
}

/// The registry after the trap phase.
pub open spec fn after_traps(snap: Seq<Entity>, map: Seq<Tile>, offs: Seq<Pos>) -> Seq<Entity> {
    resolved_prefix(snap, map, offs, snap.len() as int)
}

/// Each axis of each offset is -1 or 0.
pub open spec fn offsets_in_range(offs: Seq<Pos>) -> bool {
    forall|i: int|
        0 <= i < offs.len() ==> -1 <= (#[trigger] offs[i]).x <= 0 && -1 <= offs[i].y <= 0
}

fn is_teleport_trap(e: &Entity) -> (r: bool)
    ensures
        r == e.is_teleport(),
{
    match e.typ {
        EntityType::Trap(Trap::Teleport) => true,
        _ => false,
    }
}

/// The Teleport trap that the one at `t` sends to: the next one after it in
/// the registry, wrapping round, which is `t` itself where there is no other.
pub fn next_teleport(snap: &Vec<Entity>, t: usize) -> (r: Option<usize>)
    requires
        t < snap@.len(),
    ensures
        r.is_some() == scan_teleport(snap@, t as int, 0).is_some(),
        r.is_some() ==> r.unwrap() as int == scan_teleport(snap@, t as int, 0).unwrap(),
        r.is_some() ==> r.unwrap() < snap@.len(),
{
    let n = snap.len();
    let mut k: usize = 0;
    while k < n
        invariant
            k <= n,
            n == snap@.len(),
            t < n,
            scan_teleport(snap@, t as int, 0) == scan_teleport(snap@, t as int, k as int),
        decreases n - k,
    {
        let idx: usize = if k < n - t - 1 { t + 1 + k } else { k - (n - t - 1) };
        assert(idx as int == cyclic_index(t as int, k as int, n as int));
        if is_teleport_trap(&snap[idx]) {
            return Some(idx);
        }
        k = k + 1;
    }
    None
}

/// What the trap under creature `i` does to it.
pub fn resolve_creature(snap: &Vec<Entity>, map: &Vec<Tile>, i: usize, off: Pos) -> (r: Entity)
    requires
        i < snap@.len(),
        snap@[i as int].is_creature(),
        snap@[i as int].typ.hp_spec() >= i32::MIN + TRAP_DAMAGE,
    ensures
        r == creature_outcome(snap@, map@, i as int, off),
{
    let e = snap[i];
    let mut typ = e.typ;
    let mut pos = e.pos;
    match find_index(e.pos, snap, true) {
        None => {},
        Some(t) => {
            match snap[t].typ {
                EntityType::Trap(Trap::Berserk) => {
                    typ.go_berserk();
                },
                EntityType::Trap(Trap::Kill) => {
                    let _ = typ.lose_hp(TRAP_DAMAGE);
                },
                EntityType::Trap(Trap::Teleport) => {
                    match next_teleport(snap, t) {
                        Some(d) => {
                            pos = snap[d].pos;
                        },
                        None => {},
                    }
                },
                EntityType::Trap(Trap::Bump) => {
                    pos = attempt_move(e.pos, off, map);
                },
                EntityType::Trap(Trap::CountDown(n)) => {
                    if n == 0 {
                        let _ = typ.lose_hp(TRAP_DAMAGE);
                    }
                },
                _ => {},
            }
        },
    }
    Entity { pos: pos, glyph: e.glyph, color: e.color, typ: typ }
}

/// What the phase does to trap `t`: `None` where it is used up.
pub fn resolve_trap(snap: &Vec<Entity>, t: usize) -> (r: Option<Entity>)
    requires
        t < snap@.len(),
    ensures
        r == trap_outcome(snap@, t as int),
{
    let e = snap[t];
    let first = find_index(e.pos, snap, true);
    let stood_on = find_index(e.pos, snap, false);
    let hit = stood_on.is_some() && match first {
        Some(f) => f == t,
        None => false,
    };
    if !hit {
        return Some(e);
    }
    match e.typ {
        EntityType::Trap(Trap::Kill) => None,
        EntityType::Trap(Trap::CountDown(n)) => {
            if n > 0 {
                Some(
                    Entity {
                        pos: e.pos,
                        glyph: countdown_glyph(n - 1),
                        color: e.color,
                        typ: EntityType::Trap(Trap::CountDown(n - 1)),
                    },
                )
            } else {
                Some(e)
            }
        },
        _ => Some(e),
    }
}

/// Whether creature `i` stands on a Bump trap.
pub fn stands_on_bump(snap: &Vec<Entity>, i: usize) -> (r: bool)
    requires
        i < snap@.len(),
    ensures
        r == bump_triggered(snap@, i as int),
{
    if snap[i].typ.is_trap() {
        return false;
    }
    match find_index(snap[i].pos, snap, true) {
        Some(t) => match snap[t].typ {
            EntityType::Trap(Trap::Bump) => true,
            _ => false,
        },
        None => false,
    }
}

/// Resolves every trap with the given offsets, `offsets[i]` being the one
/// drawn for entity `i` (none where the list is short). `id` is followed
/// through the removals: the result is the index at which the entity that
/// stood at `id` stands afterwards, where it is still there.
pub fn resolve_traps_with(
    entities: &mut Vec<Entity>,
    map: &Vec<Tile>,
    offsets: &Vec<Pos>,
    id: EntityId,
) -> (new_id: EntityId)
    requires
        hp_floor(old(entities)@, i32::MIN + TRAP_DAMAGE),
    ensures
        final(entities)@ == after_traps(old(entities)@, map@, offsets@),
        id < old(entities)@.len() ==> new_id as int == resolved_prefix(
            old(entities)@,
            map@,
            offsets@,
            id as int,
        ).len(),
{
    let snap = entities.clone();
    assert(snap@ == old(entities)@);
    let mut out: Vec<Entity> = Vec::new();
    let mut new_id: usize = 0;
    let mut i: usize = 0;
    while i < snap.len()
        invariant
            i <= snap@.len(),
            hp_floor(snap@, i32::MIN + TRAP_DAMAGE),
            out@ == resolved_prefix(snap@, map@, offsets@, i as int),
            new_id as int == resolved_prefix(
                snap@,
                map@,
                offsets@,
                if id < i { id as int } else { i as int },
            ).len(),
        decreases snap@.len() - i,
    {
        let off = if i < offsets.len() { offsets[i] } else { Pos { x: 0, y: 0 } };
        let outcome = if snap[i].typ.is_trap() {
            resolve_trap(&snap, i)
        } else {
            Some(resolve_creature(&snap, map, i, off))
        };
        match outcome {
            Some(e) => {
                out.push(e);
            },
            None => {},
        }
        i = i + 1;
        if id >= i {
            new_id = out.len();
        }
    }
    *entities = out;
    new_id
}

/// Draws one axis of a Bump offset.
///
/// Calls `rand::Rng::gen_range` on `rand::thread_rng()` with the bounds -1
/// and 1. Trusted: the result lies in the half-open range from -1 to 1, so it
/// is -1 or 0. Nothing is claimed of which of the two comes out.
#[verifier::external_body]
fn sample_axis() -> (r: i32)
    ensures
        -1 <= r <= 0,
{
    rand::Rng::gen_range(&mut rand::thread_rng(), -1, 1)
}

/// Draws the offsets of one trap phase: two samples for each creature that
/// stands on a Bump trap, in registry order, and no sample for anyone else.
pub fn draw_offsets(snap: &Vec<Entity>) -> (offs: Vec<Pos>)
    ensures
        offs@.len() == snap@.len(),
        offsets_in_range(offs@),
        forall|i: int|
            0 <= i < snap@.len() && !bump_triggered(snap@, i) ==> #[trigger] offs@[i] == (Pos {
                x: 0,
                y: 0,
            }),
{
    let mut offs: Vec<Pos> = Vec::new();
    let mut i: usize = 0;
    while i < snap.len()
        invariant
            i <= snap@.len(),
            offs@.len() == i,
            offsets_in_range(offs@),
            forall|j: int|
                0 <= j < i && !bump_triggered(snap@, j) ==> #[trigger] offs@[j] == (Pos {
                    x: 0,
                    y: 0,
                }),
        decreases snap@.len() - i,
    {
        let off = if stands_on_bump(snap, i) {
            let x = sample_axis();
            let y = sample_axis();
            Pos { x: x, y: y }
        } else {
            Pos { x: 0, y: 0 }
        };
        offs.push(off);
        i = i + 1;
    }
    offs
}

/// Resolves every trap, drawing the offset of each Bump trigger at random.
/// The registry ends as `resolve_traps_with` leaves it for some offsets with
/// each axis -1 or 0. `id` is followed through the removals as there.
pub fn resolve_traps(entities: &mut Vec<Entity>, map: &Vec<Tile>, id: EntityId) -> (new_id: EntityId)
    requires
        hp_floor(old(entities)@, i32::MIN + TRAP_DAMAGE),
    ensures
        exists|offs: Seq<Pos>|
            offs.len() == old(entities)@.len() && offsets_in_range(offs) && #[trigger] after_traps(
                old(entities)@,
                map@,
                offs,
            ) == final(entities)@ && (id < old(entities)@.len() ==> new_id as int
                == resolved_prefix(old(entities)@, map@, offs, id as int).len()),
{
    let offsets = draw_offsets(entities);
    resolve_traps_with(entities, map, &offsets, id)
}

/// A count-down trap with time left, stood on by a creature, loses one tick
/// and stays; the creature is left exactly as it was.
pub proof fn lemma_countdown_ticks(snap: Seq<Entity>, map: Seq<Tile>, i: int, t: int, n: u8, off: Pos)
    requires
        0 <= i < snap.len(),
        snap[i].is_creature(),
        trap_at(snap, snap[i].pos) == Some(t),
        snap[t].typ == EntityType::Trap(Trap::CountDown(n)),
        n > 0,
    ensures
        creature_outcome(snap, map, i, off) == snap[i],
        trap_outcome(snap, t) == Some(
            Entity {
                pos: snap[t].pos,
                glyph: countdown_glyph_spec((n - 1) as u8),
                color: snap[t].color,
                typ: EntityType::Trap(Trap::CountDown((n - 1) as u8)),
            },
        ),
{
    lemma_stood_on(snap, i, t);
}

/// A count-down trap that has run out takes exactly `TRAP_DAMAGE` from the
/// creature that stands on it, and stays as it is.
pub proof fn lemma_countdown_zero(snap: Seq<Entity>, map: Seq<Tile>, i: int, t: int, off: Pos)
    requires
        0 <= i < snap.len(),
        snap[i].is_creature(),
        snap[i].typ.hp_spec() >= i32::MIN + TRAP_DAMAGE,
        trap_at(snap, snap[i].pos) == Some(t),
        snap[t].typ == EntityType::Trap(Trap::CountDown(0)),
    ensures
        creature_outcome(snap, map, i, off).typ.hp_spec() == snap[i].typ.hp_spec() - TRAP_DAMAGE,
        creature_outcome(snap, map, i, off).pos == snap[i].pos,
        trap_outcome(snap, t) == Some(snap[t]),
{
    lemma_stood_on(snap, i, t);
}

/// A Kill trap takes exactly `TRAP_DAMAGE` from the creature that stands on
/// it, however little health that leaves, and is gone from the registry.
pub proof fn lemma_kill_consumed(snap: Seq<Entity>, map: Seq<Tile>, i: int, t: int, off: Pos)
    requires
        0 <= i < snap.len(),
        snap[i].is_creature(),
        snap[i].typ.hp_spec() >= i32::MIN + TRAP_DAMAGE,
        trap_at(snap, snap[i].pos) == Some(t),
        snap[t].typ == EntityType::Trap(Trap::Kill),
    ensures
        creature_outcome(snap, map, i, off).typ.hp_spec() == snap[i].typ.hp_spec() - TRAP_DAMAGE,
        creature_outcome(snap, map, i, off).pos == snap[i].pos,
        trap_outcome(snap, t).is_none(),
        entity_outcome(snap, map, t, off).is_none(),
{
    lemma_stood_on(snap, i, t);
}

/// Where the registry holds a single Teleport trap, the creature that
/// triggers it stays where it is.
pub proof fn lemma_lone_teleport(snap: Seq<Entity>, map: Seq<Tile>, i: int, t: int, off: Pos)
    requires
        0 <= i < snap.len(),
        snap[i].is_creature(),
        trap_at(snap, snap[i].pos) == Some(t),
        snap[t].is_teleport(),
        forall|j: int| 0 <= j < snap.len() && (#[trigger] snap[j]).is_teleport() ==> j == t,
    ensures
        creature_outcome(snap, map, i, off) == snap[i],
{
    lemma_stood_on(snap, i, t);
    lemma_scan_teleport(snap, t, 0);
}

/// The trap that a creature triggers lies in the registry, on the creature's
/// cell, and counts as triggered.
pub proof fn lemma_stood_on(snap: Seq<Entity>, i: int, t: int)
    requires
        0 <= i < snap.len(),
        snap[i].is_creature(),
        trap_at(snap, snap[i].pos) == Some(t),
    ensures
        0 <= t < snap.len(),
        snap[t].typ is Trap,
        snap[t].pos == snap[i].pos,
        triggered(snap, t),
{
    lemma_first_from(snap, snap[i].pos, true, 0);
    lemma_first_from(snap, snap[i].pos, false, 0);
}

/// What the walk finds is a Teleport trap of the registry.
pub proof fn lemma_scan_teleport(snap: Seq<Entity>, t: int, k: int)
    requires
        0 <= t < snap.len(),
        0 <= k,
    ensures
        match scan_teleport(snap, t, k) {
            Some(d) => 0 <= d < snap.len() && snap[d].is_teleport(),
            None => true,
        },
    decreases snap.len() - k,
{
    if k < snap.len() && !snap[cyclic_index(t, k, snap.len() as int)].is_teleport() {
        lemma_scan_teleport(snap, t, k + 1);
    }
}

/// The walk that starts after a Teleport trap always finds one: the trap
/// itself at the latest, on which it ends.
pub proof fn lemma_teleport_found(snap: Seq<Entity>, t: int, k: int)
    requires
        0 <= t < snap.len(),
        0 <= k < snap.len(),
        snap[t].is_teleport(),
    ensures
        scan_teleport(snap, t, k).is_some(),
    decreases snap.len() - k,
{
    if !snap[cyclic_index(t, k, snap.len() as int)].is_teleport() {
        lemma_teleport_found(snap, t, k + 1);
    }
}

/// The outcome of an entity is of its own kind and greatest health, and has
/// lost no more health than `TRAP_DAMAGE`.
pub proof fn lemma_outcome_kind(snap: Seq<Entity>, map: Seq<Tile>, i: int, off: Pos)
    requires
        0 <= i < snap.len(),
        snap[i].typ.hp_spec() >= i32::MIN + TRAP_DAMAGE,
    ensures
        match entity_outcome(snap, map, i, off) {
            Some(e) => (e.typ is Player) == (snap[i].typ is Player) && (e.typ is Monster) == (
            snap[i].typ is Monster) && e.typ.hp_spec() >= snap[i].typ.hp_spec() - TRAP_DAMAGE
                && e.typ.hp_spec() <= snap[i].typ.hp_spec() && e.typ.max_hp_spec()
                == snap[i].typ.max_hp_spec(),
            None => snap[i].typ is Trap,
        },
{
}

/// An entity that stays in the registry is found afterwards, as its outcome,
/// at the index that the phase reports for it: right behind the outcomes of
/// the entities that stood before it.
pub proof fn lemma_resolved_index(snap: Seq<Entity>, map: Seq<Tile>, offs: Seq<Pos>, i: int, k: int)
    requires
        0 <= i < k <= snap.len(),
        entity_outcome(snap, map, i, offset_at(offs, i)).is_some(),
    ensures
        resolved_prefix(snap, map, offs, i).len() < resolved_prefix(snap, map, offs, k).len(),
        resolved_prefix(snap, map, offs, k)[resolved_prefix(snap, map, offs, i).len() as int]
            == entity_outcome(snap, map, i, offset_at(offs, i)).unwrap(),
    decreases k,
{
    if k > i + 1 {
        lemma_resolved_index(snap, map, offs, i, k - 1);
    }
}

/// The trap phase keeps the registry's shape: the player is still there, at
/// the index that the phase reports for it, it is still the only one, no
/// entity has lost more health than `TRAP_DAMAGE`, and none has gained any.
pub proof fn lemma_traps_keep_roster(
    snap: Seq<Entity>,
    map: Seq<Tile>,
    offs: Seq<Pos>,
    pid: int,
    floor: int,
    k: int,
)
    requires
        roster_ok(snap, pid),
        hp_floor(snap, floor),
        floor >= i32::MIN + TRAP_DAMAGE,
        0 <= k <= snap.len(),
    ensures
        resolved_prefix(snap, map, offs, k).len() <= k,
        hp_floor(resolved_prefix(snap, map, offs, k), floor - TRAP_DAMAGE),
        hp_capped(snap) ==> hp_capped(resolved_prefix(snap, map, offs, k)),
        k <= pid ==> forall|j: int|
            0 <= j < resolved_prefix(snap, map, offs, k).len() ==> !((
            #[trigger] resolved_prefix(snap, map, offs, k)[j]).typ is Player),
        k > pid ==> roster_ok(
            resolved_prefix(snap, map, offs, k),
            resolved_prefix(snap, map, offs, pid).len() as int,
        ),
    decreases k,
{
    if k > 0 {
        lemma_traps_keep_roster(snap, map, offs, pid, floor, k - 1);
        lemma_outcome_kind(snap, map, k - 1, offset_at(offs, k - 1));
        let before = resolved_prefix(snap, map, offs, k - 1);
        let now = resolved_prefix(snap, map, offs, k);
        assert forall|j: int| 0 <= j < now.len() implies (#[trigger] now[j]).typ.hp_spec() >= floor
            - TRAP_DAMAGE by {
            if j < before.len() {
                assert(now[j] == before[j]);
            }
        }
        if hp_capped(snap) {
            assert forall|j: int| 0 <= j < now.len() implies (#[trigger] now[j]).typ.hp_spec()
                <= now[j].typ.max_hp_spec() by {
                if j < before.len() {
                    assert(now[j] == before[j]);
                }
            }
        }
        if k <= pid {
            assert forall|j: int| 0 <= j < now.len() implies !((#[trigger] now[j]).typ is Player) by {
                if j < before.len() {
                    assert(now[j] == before[j]);
                }
            }
        } else {
            let p = resolved_prefix(snap, map, offs, pid).len() as int;
            assert forall|j: int| 0 <= j < now.len() && (#[trigger] now[j]).typ is Player implies j
                == p by {
                if j < before.len() {
                    assert(now[j] == before[j]);
                }
            }
        }
    }
}

} // verus!
