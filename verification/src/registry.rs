//! Queries on the entity registry: who stands on a cell.

use vstd::prelude::*;
use crate::types::{Entity, Pos};

verus! {

/// An entity stands at `pos` and is of the kind asked for: a trap where
/// `traps` is set, a creature (player or monster) where it is not.
pub open spec fn matches_at(e: Entity, pos: Pos, traps: bool) -> bool {
    e.pos == pos && (e.typ is Trap) == traps
}

/// Index of the first entity at or after `from` that matches.
pub open spec fn first_from(s: Seq<Entity>, pos: Pos, traps: bool, from: int) -> Option<int>
    decreases s.len() - from,
{
    if from < 0 || from >= s.len() {
        None
    } else if matches_at(s[from], pos, traps) {
        Some(from)
    } else {
        first_from(s, pos, traps, from + 1)
    }
}

/// Index of the first creature at `pos`.
pub open spec fn creature_at(s: Seq<Entity>, pos: Pos) -> Option<int> {
    first_from(s, pos, false, 0)
}

/// Index of the first trap at `pos`.
pub open spec fn trap_at(s: Seq<Entity>, pos: Pos) -> Option<int> {
    first_from(s, pos, true, 0)
}

/// What `first_from` finds matches, and nothing before it does; where it
/// finds nothing, nothing matches.
pub proof fn lemma_first_from(s: Seq<Entity>, pos: Pos, traps: bool, from: int)
    requires
        0 <= from,
    ensures
        match first_from(s, pos, traps, from) {
            Some(k) => from <= k < s.len() && matches_at(s[k], pos, traps) && forall|j: int|
                from <= j < k ==> !matches_at(#[trigger] s[j], pos, traps),
            None => forall|j: int| from <= j < s.len() ==> !matches_at(#[trigger] s[j], pos, traps),
        },
    decreases s.len() - from,
{
    if from < s.len() && !matches_at(s[from], pos, traps) {
        lemma_first_from(s, pos, traps, from + 1);
    }
}

/// Index of the first entity of the wanted kind at `pos`.
pub fn find_index(pos: Pos, entities: &Vec<Entity>, traps: bool) -> (r: Option<usize>)
    ensures
        r.is_some() == first_from(entities@, pos, traps, 0).is_some(),
        r.is_some() ==> r.unwrap() as int == first_from(entities@, pos, traps, 0).unwrap(),
        r.is_some() ==> r.unwrap() < entities@.len(),
{
    let mut i: usize = 0;
    while i < entities.len()
        invariant
            i <= entities.len(),
            first_from(entities@, pos, traps, 0) == first_from(entities@, pos, traps, i as int),
        decreases entities.len() - i,
    {
        if entities[i].pos.same(&pos) && entities[i].typ.is_trap() == traps {
            return Some(i);
        }
        i = i + 1;
    }
    None
}

/// The first creature (player or monster) at `pos`.
pub fn occupied_tile(pos: Pos, entities: &Vec<Entity>) -> (r: Option<Entity>)
    ensures
        r == match creature_at(entities@, pos) {
            Some(k) => Some(entities@[k]),
            None => None,
        },
{
    proof {
        lemma_first_from(entities@, pos, false, 0);
    }
    match find_index(pos, entities, false) {
        Some(k) => Some(entities[k]),
        None => None,
    }
}

/// The first trap at `pos`.
pub fn trap_tile(pos: Pos, entities: &Vec<Entity>) -> (r: Option<Entity>)
    ensures
        r == match trap_at(entities@, pos) {
            Some(k) => Some(entities@[k]),
            None => None,
        },
{
    proof {
        lemma_first_from(entities@, pos, true, 0);
    }
    match find_index(pos, entities, true) {
        Some(k) => Some(entities[k]),
        None => None,
    }
}

/// Most entities a registry may hold: leaves room so that the damage of one
/// tick cannot run out of the range of `Hp`.
pub const MAX_ENTITIES: usize = 0x4000_0000;

/// The registry holds exactly one player, at `pid`, and is not over-full.
pub open spec fn roster_ok(s: Seq<Entity>, pid: int) -> bool {
    &&& 0 <= pid < s.len() <= MAX_ENTITIES
    &&& s[pid].typ is Player
    &&& forall|i: int| 0 <= i < s.len() && (#[trigger] s[i]).typ is Player ==> i == pid
}

/// Every entity's health is at least `floor` (a trap counts as 0).
pub open spec fn hp_floor(s: Seq<Entity>, floor: int) -> bool {
    forall|i: int| 0 <= i < s.len() ==> (#[trigger] s[i]).typ.hp_spec() >= floor
}

/// No entity has more health than its greatest health.
pub open spec fn hp_capped(s: Seq<Entity>) -> bool {
    forall|i: int| 0 <= i < s.len() ==> (#[trigger] s[i]).typ.hp_spec() <= s[i].typ.max_hp_spec()
}

} // verus!
