//! The end of a tick: monsters whose health is used up leave the registry.

use vstd::prelude::*;
use crate::types::{Entity, EntityId, EntityType};
use crate::registry::{hp_capped, hp_floor, roster_ok};

verus! {

/// A monster leaves the registry once its health is used up; nothing else
/// ever leaves it for want of health.
pub open spec fn survives(e: Entity) -> bool {
    !(e.typ is Monster) || e.typ.hp_spec() > 0
}

/// The survivors among the first `k` entities, in their order.
pub open spec fn survivors_prefix(s: Seq<Entity>, k: int) -> Seq<Entity>
    decreases k,
{
    if k <= 0 {
        Seq::empty()
    } else {
        let before = survivors_prefix(s, k - 1);
        if survives(s[k - 1]) {
            before.push(s[k - 1])
        } else {
            before
        }
    }
}

/// No monster of the registry is dead.
pub open spec fn no_dead(s: Seq<Entity>) -> bool {
    forall|j: int| 0 <= j < s.len() ==> survives(#[trigger] s[j])
}

/// The registry with the dead monsters gone.
pub open spec fn after_cleanup(s: Seq<Entity>) -> Seq<Entity> {
    survivors_prefix(s, s.len() as int)
}

/// Removes every monster whose health is used up, keeping the others in
/// their order. `id` is followed through the removals: the result is the
/// index at which the entity that stood at `id` stands afterwards, where it
/// is still there.
pub fn remove_dead(entities: &mut Vec<Entity>, id: EntityId) -> (new_id: EntityId)
    ensures
        final(entities)@ == after_cleanup(old(entities)@),
        no_dead(final(entities)@),
        id < old(entities)@.len() ==> new_id as int == survivors_prefix(
            old(entities)@,
            id as int,
        ).len(),
{
    let mut out: Vec<Entity> = Vec::new();
    let mut new_id: usize = 0;
    let mut i: usize = 0;
    while i < entities.len()
        invariant
            i <= entities@.len(),
            entities@ == old(entities)@,
            out@ == survivors_prefix(entities@, i as int),
            no_dead(out@),
            new_id as int == survivors_prefix(
                entities@,
                if id < i { id as int } else { i as int },
            ).len(),
        decreases entities@.len() - i,
    {
        let e = entities[i];
        let keep = match e.typ {
            EntityType::Monster(m) => m.hp > 0,
            _ => true,
        };
        if keep {
            out.push(e);
        }
        i = i + 1;
        if id >= i {
            new_id = out.len();
        }
    }
    *entities = out;
    new_id
}

/// An entity that survives is found after the cleanup, unchanged, at the
/// index that the cleanup reports for it: right behind the survivors among
/// the entities that stood before it.
pub proof fn lemma_survivor_index(s: Seq<Entity>, i: int, k: int)
    requires
        0 <= i < k <= s.len(),
        survives(s[i]),
    ensures
        survivors_prefix(s, i).len() < survivors_prefix(s, k).len(),
        survivors_prefix(s, k)[survivors_prefix(s, i).len() as int] == s[i],
    decreases k,
{
    if k > i + 1 {
        lemma_survivor_index(s, i, k - 1);
    }
}

/// The cleanup keeps the registry's shape: the player is still there, as it
/// was, at the index that the cleanup reports for it, and is still the only
/// one; every monster left has health; no health has changed.
pub proof fn lemma_cleanup_keeps_roster(s: Seq<Entity>, pid: int, k: int)
    requires
        roster_ok(s, pid),
        0 <= k <= s.len(),
    ensures
        survivors_prefix(s, k).len() <= k,
        forall|j: int|
            0 <= j < survivors_prefix(s, k).len() ==> survives(#[trigger] survivors_prefix(s, k)[j]),
        forall|b: int| hp_floor(s, b) ==> #[trigger] hp_floor(survivors_prefix(s, k), b),
        hp_capped(s) ==> hp_capped(survivors_prefix(s, k)),
        k <= pid ==> forall|j: int|
            0 <= j < survivors_prefix(s, k).len() ==> !((#[trigger] survivors_prefix(
                s,
                k,
            )[j]).typ is Player),
        k > pid ==> roster_ok(survivors_prefix(s, k), survivors_prefix(s, pid).len() as int)
            && survivors_prefix(s, k)[survivors_prefix(s, pid).len() as int] == s[pid],
    decreases k,
{
    if k > 0 {
        lemma_cleanup_keeps_roster(s, pid, k - 1);
        let before = survivors_prefix(s, k - 1);
        let now = survivors_prefix(s, k);
        assert forall|j: int| 0 <= j < now.len() implies survives(#[trigger] now[j]) by {
            if j < before.len() {
                assert(now[j] == before[j]);
            }
        }
        assert forall|b: int| hp_floor(s, b) implies #[trigger] hp_floor(now, b) by {
            assert(hp_floor(before, b));
            assert forall|j: int| 0 <= j < now.len() implies (#[trigger] now[j]).typ.hp_spec()
                >= b by {
                if j < before.len() {
                    assert(now[j] == before[j]);
                }
            }
        }
        if hp_capped(s) {
            assert forall|j: int| 0 <= j < now.len() implies (#[trigger] now[j]).typ.hp_spec()
                <= now[j].typ.max_hp_spec() by {
                if j < before.len() {
                    assert(now[j] == before[j]);
                }
            }
        }
        if k <= pid {
            assert forall|j: int| 0 <= j < now.len() implies !((#[trigger] now[j]).typ is Player) by {
                if j < before.len() {
                    assert(now[j] == before[j]);
                }
            }
        } else {
            let p = survivors_prefix(s, pid).len() as int;
            assert forall|j: int| 0 <= j < now.len() && (#[trigger] now[j]).typ is Player implies j
                == p by {
                if j < before.len() {
                    assert(now[j] == before[j]);
                }
            }
            if k - 1 > pid {
                assert(now[p] == before[p]);
            }
        }
    }
}

} // verus!
