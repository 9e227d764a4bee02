//! Properties of the registry that relate several operations, proved over
//! its abstract state.
use vstd::prelude::*;

use crate::list::{NPCListState, NPC_LIST_MAX_CAP};
use crate::npc::NPC;

verus! {

/// The state after placing `es[i]` at slot `ks[i]`, in order.
pub open spec fn place_all(s: NPCListState, ks: Seq<int>, es: Seq<NPC>) -> NPCListState
    decreases ks.len(),
{
    if ks.len() == 0 || es.len() == 0 {
        s
    } else {
        place_all(s, ks.drop_last(), es.drop_last()).place(ks.last(), es.last())
    }
}

/// One more than the highest index in `ks`, or 0 when `ks` is empty.
pub open spec fn high_water(ks: Seq<int>) -> int
    decreases ks.len(),
{
    if ks.len() == 0 {
        0
    } else {
        let h = high_water(ks.drop_last());
        if h <= ks.last() {
            ks.last() + 1
        } else {
            h
        }
    }
}

/// The registry always has exactly 512 slots, and no placement changes that.
pub proof fn lemma_capacity_fixed(s: NPCListState, k: int, npc: NPC)
    requires
        s.wf(),
        0 <= k < NPC_LIST_MAX_CAP,
    ensures
        NPC_LIST_MAX_CAP == 512,
        s.slots.len() == 512,
        s.place(k, npc).wf(),
        s.place(k, npc).slots.len() == 512,
        s.cleared().wf(),
{
}

/// A spawn from `m` picks the smallest free index at or after `m`: it is not
/// below `m`, the slot there is free, and every slot between `m` and it is not.
/// When it is the capacity, no slot at or after `m` is free.
pub proof fn lemma_spawn_picks_first_free(s: NPCListState, m: int)
    requires
        s.wf(),
        0 <= m <= NPC_LIST_MAX_CAP,
    ensures
        m <= s.first_free(m) <= NPC_LIST_MAX_CAP,
        s.first_free(m) < NPC_LIST_MAX_CAP ==> s.is_free(s.first_free(m)),
        forall|j: int| m <= j < s.first_free(m) ==> !s.is_free(j),
    decreases NPC_LIST_MAX_CAP - m,
{
    if m < NPC_LIST_MAX_CAP && !s.is_free(m) {
        lemma_spawn_picks_first_free(s, m + 1);
    }
}

/// After a placement at `k`, the entity stored at `k` has id `k`.
pub proof fn lemma_placed_id(s: NPCListState, k: int, npc: NPC)
    requires
        s.wf(),
        0 <= k < NPC_LIST_MAX_CAP,
    ensures
        s.place(k, npc).slots[k].id == k,
{
}

/// A placement never lowers the cursor; it raises it to one past the index
/// placed when that index is not already below it.
pub proof fn lemma_place_never_lowers_cursor(s: NPCListState, k: int, npc: NPC)
    requires
        s.wf(),
        0 <= k < NPC_LIST_MAX_CAP,
    ensures
        s.place(k, npc).cursor >= s.cursor,
        s.place(k, npc).cursor > k,
        s.place(k, npc).cursor == (if s.cursor <= k {
            k + 1
        } else {
            s.cursor
        }),
{
}

/// Starting from a cursor of 0 (a new or cleared registry), after any sequence
/// of placements the cursor is one more than the highest index placed.
pub proof fn lemma_cursor_is_high_water(s: NPCListState, ks: Seq<int>, es: Seq<NPC>)
    requires
        s.wf(),
        s.cursor == 0,
        ks.len() == es.len(),
        forall|i: int| 0 <= i < ks.len() ==> 0 <= #[trigger] ks[i] < NPC_LIST_MAX_CAP,
    ensures
        place_all(s, ks, es).wf(),
        place_all(s, ks, es).cursor == high_water(ks),
    decreases ks.len(),
{
    if ks.len() > 0 {
        let ks2 = ks.drop_last();
        assert forall|i: int| 0 <= i < ks2.len() implies 0 <= #[trigger] ks2[i]
            < NPC_LIST_MAX_CAP by {
            assert(ks2[i] == ks[i]);
        }
        lemma_cursor_is_high_water(s, ks2, es.drop_last());
        assert(0 <= ks[ks.len() - 1] < NPC_LIST_MAX_CAP);
    }
}

/// A walk over all assigned slots that stands at index `i` goes on past `i`
/// once something is placed at an index `k >= i`, and reaches `k` itself.
pub proof fn lemma_spawn_extends_walk(s: NPCListState, i: int, k: int, npc: NPC)
    requires
        s.wf(),
        0 <= i <= k < NPC_LIST_MAX_CAP,
    ensures
        i < s.place(k, npc).cursor,
        k < s.place(k, npc).cursor,
{
}

/// The alive-only walk from `i` yields the first index at or after `i` and
/// below the cursor whose entity is alive and whose slot is not checked out;
/// it passes over no such index. The number of items it yields is the number
/// of such indices.
pub proof fn lemma_alive_walk_exact(s: NPCListState, i: int)
    requires
        s.wf(),
        0 <= i <= s.cursor,
    ensures
        i <= s.next_alive(i) <= s.cursor,
        s.next_alive(i) < s.cursor ==> s.is_visible_alive(s.next_alive(i)),
        forall|j: int| i <= j < s.next_alive(i) ==> !s.is_visible_alive(j),
        s.next_alive(i) == s.cursor ==> s.alive_from(i) == 0,
        s.next_alive(i) < s.cursor ==> s.alive_from(i) == 1 + s.alive_from(s.next_alive(i) + 1),
    decreases s.cursor - i,
{
    if i < s.cursor && !s.is_visible_alive(i) {
        lemma_alive_walk_exact(s, i + 1);
    }
}

/// After a clear, the cursor is 0 and the alive-only walk yields nothing.
pub proof fn lemma_clear_empties(s: NPCListState)
    requires
        s.wf(),
    ensures
        s.cleared().wf(),
        s.cleared().cursor == 0,
        s.cleared().alive_from(0) == 0,
{
}

} // verus!
