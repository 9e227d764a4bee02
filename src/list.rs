use vstd::prelude::*;

use crate::error::{GameError, GameResult, InvalidValue};
use crate::npc::{empty_npc, NPC};

verus! {

/// Number of slots in every registry.
pub const NPC_LIST_MAX_CAP: usize = 512;

/// The abstract state of a registry.
pub struct NPCListState {
    /// Content of each slot, by index.
    pub slots: Seq<NPC>,
    /// Whether each slot is currently checked out for exclusive use.
    pub busy: Seq<bool>,
    /// One more than the highest index placed since the last clear.
    pub cursor: int,
    /// Seed handed to every entity when it is placed.
    pub seed: i32,
}

/// `npc` as it is stored when placed at slot `id` of a registry seeded with `seed`.
pub open spec fn prepared(npc: NPC, id: u16, seed: i32) -> NPC {
    NPC {
        id,
        tsc_direction: if npc.tsc_direction == 0 {
            npc.direction as u16
        } else {
            npc.tsc_direction
        },
        rng_seed: seed,
        ..npc
    }
}

impl NPCListState {
    /// Exactly one entity and one busy flag per slot, and a cursor within the slots.
    pub open spec fn wf(self) -> bool {
        &&& self.slots.len() == NPC_LIST_MAX_CAP
        &&& self.busy.len() == NPC_LIST_MAX_CAP
        &&& 0 <= self.cursor <= NPC_LIST_MAX_CAP
    }

    /// A slot that a spawn may take: its entity is not alive and nobody holds it.
    pub open spec fn is_free(self, i: int) -> bool {
        !self.slots[i].cond.alive && !self.busy[i]
    }

    /// A slot that the alive-only view yields: its entity is alive and nobody holds it.
    pub open spec fn is_visible_alive(self, i: int) -> bool {
        self.slots[i].cond.alive && !self.busy[i]
    }

    /// The first free slot at or after `i`, or the capacity when there is none.
    pub open spec fn first_free(self, i: int) -> int
        decreases NPC_LIST_MAX_CAP - i,
    {
        if i >= NPC_LIST_MAX_CAP {
            NPC_LIST_MAX_CAP as int
        } else if self.is_free(i) {
            i
        } else {
            self.first_free(i + 1)
        }
    }

    /// The first slot at or after `i` and below the cursor that the alive-only
    /// view yields, or the cursor when there is none.
    pub open spec fn next_alive(self, i: int) -> int
        decreases self.cursor - i,
    {
        if i >= self.cursor {
            self.cursor
        } else if self.is_visible_alive(i) {
            i
        } else {
            self.next_alive(i + 1)
        }
    }

    /// How many slots from `i` up to the cursor the alive-only view yields.
    pub open spec fn alive_from(self, i: int) -> nat
        decreases self.cursor - i,
    {
        if i >= self.cursor {
            0
        } else {
            (if self.is_visible_alive(i) { 1nat } else { 0nat }) + self.alive_from(i + 1)
        }
    }

    /// How many slots below `j` and below the cursor the alive-only view yields.
    pub open spec fn alive_before(self, j: int) -> nat
        decreases j,
    {
        if j <= 0 {
            0
        } else {
            self.alive_before(j - 1) + (if j - 1 < self.cursor && self.is_visible_alive(j - 1) {
                1nat
            } else {
                0nat
            })
        }
    }

    /// The state after `npc` is placed at slot `k`.
    pub open spec fn place(self, k: int, npc: NPC) -> NPCListState {
        NPCListState {
            slots: self.slots.update(k, prepared(npc, k as u16, self.seed)),
            cursor: if self.cursor <= k {
                k + 1
            } else {
                self.cursor
            },
            ..self
        }
    }

    /// What `clear` leaves in slot `j`: each slot that the alive-only view
    /// yields becomes an empty entity whose id is its position in that walk.
    pub open spec fn cleared_slot(self, j: int) -> NPC {
        if j < self.cursor && self.is_visible_alive(j) {
            NPC { id: self.alive_before(j) as u16, ..empty_npc() }
        } else {
            self.slots[j]
        }
    }

    /// The state after `clear`.
    pub open spec fn cleared(self) -> NPCListState {
        NPCListState {
            slots: Seq::new(NPC_LIST_MAX_CAP as nat, |j: int| self.cleared_slot(j)),
            cursor: 0,
            ..self
        }
    }
}

/// A fixed-capacity registry of entities, addressed by slot index.
///
/// Access to one slot's entity for exclusive use goes through `checkout` and
/// `checkin`. While a slot is checked out it is busy: spawning passes over
/// it and the alive-only view skips it.
pub struct NPCList {
    npcs: Vec<NPC>,
    busy: Vec<bool>,
    max_npc: u16,
    seed: i32,
}

impl View for NPCList {
    type V = NPCListState;

    closed spec fn view(&self) -> NPCListState {
        NPCListState {
            slots: self.npcs@,
            busy: self.busy@,
            cursor: self.max_npc as int,
            seed: self.seed,
        }
    }
}

impl NPCList {
    /// The registry's invariant, stated over its abstract state.
    pub open spec fn wf(&self) -> bool {
        self@.wf()
    }

    /// A registry whose slots all hold the empty entity with the slot's index as id.
    pub fn new() -> (r: NPCList)
        ensures
            r.wf(),
            r@.cursor == 0,
            r@.seed == 0,
            forall|i: int|
                0 <= i < NPC_LIST_MAX_CAP ==> r@.slots[i] == (NPC { id: i as u16, ..empty_npc() })
                    && !r@.busy[i],
    {
        let mut npcs: Vec<NPC> = Vec::new();
        let mut busy: Vec<bool> = Vec::new();
        let mut idx: usize = 0;
        while idx < NPC_LIST_MAX_CAP
            invariant
                idx <= NPC_LIST_MAX_CAP,
                npcs@.len() == idx,
                busy@.len() == idx,
                forall|i: int|
                    0 <= i < idx ==> npcs@[i] == (NPC { id: i as u16, ..empty_npc() }) && !busy@[i],
            decreases NPC_LIST_MAX_CAP - idx,
        {
            let mut npc = NPC::empty();
            npc.id = idx as u16;
            npcs.push(npc);
            busy.push(false);
            idx += 1;
        }
        NPCList { npcs, busy, max_npc: 0, seed: 0 }
    }

    /// Sets the seed given to every entity placed from now on.
    pub fn set_rng_seed(&mut self, seed: i32)
        ensures
            final(self)@ == (NPCListState { seed, ..old(self)@ }),
    {
        self.seed = seed;
    }

    /// Places `npc` at slot `id`: sets its id, defaults its script direction,
    /// seeds its random state, and raises the cursor past `id`.
    fn place_at(&mut self, id: u16, npc: NPC)
        requires
            old(self).wf(),
            id < NPC_LIST_MAX_CAP,
        ensures
            final(self)@ == old(self)@.place(id as int, npc),
    {
        let mut npc = npc;
        npc.id = id;
        if npc.tsc_direction == 0 {
            npc.tsc_direction = npc.direction as u16;
        }
        npc.init_rng(self.seed);
        self.npcs.set(id as usize, npc);
        if self.max_npc <= id {
            self.max_npc = id + 1;
        }
    }
    /// Places `npc` in the first free slot at or after `min_id`.
    ///
    /// A slot is free when its entity is not alive and it is not checked out.
    pub fn spawn(&mut self, min_id: u16, npc: NPC) -> (r: GameResult)
        requires
            old(self).wf(),
        ensures
            final(self).wf(),
            min_id >= NPC_LIST_MAX_CAP ==> r == Err::<(), GameError>(
                GameError::InvalidValue(InvalidValue::IdOutOfBounds),
            ) && final(self)@ == old(self)@,
            min_id < NPC_LIST_MAX_CAP && old(self)@.first_free(min_id as int) == NPC_LIST_MAX_CAP
                ==> r == Err::<(), GameError>(GameError::InvalidValue(InvalidValue::NoFreeSlot))
                && final(self)@ == old(self)@,
            min_id < NPC_LIST_MAX_CAP && old(self)@.first_free(min_id as int) < NPC_LIST_MAX_CAP
                ==> r == Ok::<(), GameError>(()) && final(self)@ == old(self)@.place(
                old(self)@.first_free(min_id as int),
                npc,
            ),
    {
        if min_id as usize >= NPC_LIST_MAX_CAP {
            return Err(GameError::InvalidValue(InvalidValue::IdOutOfBounds));
        }
        let mut id: u16 = min_id;
        while (id as usize) < NPC_LIST_MAX_CAP
            invariant
                self.wf(),
                self@ == old(self)@,
                min_id <= id <= NPC_LIST_MAX_CAP,
                self@.first_free(min_id as int) == self@.first_free(id as int),
            decreases NPC_LIST_MAX_CAP - id,
        {
            if !self.npcs[id as usize].cond.alive() && !self.busy[id as usize] {
                self.place_at(id, npc);
                return Ok(());
            }
            id += 1;
        }
        Err(GameError::InvalidValue(InvalidValue::NoFreeSlot))
    }

    /// Places `npc` at slot `id`, overwriting whatever the slot holds, alive
    /// or not. A checked-out slot is overwritten too and stays checked out.
    pub fn spawn_at_slot(&mut self, id: u16, npc: NPC) -> (r: GameResult)
        requires
            old(self).wf(),
        ensures
            final(self).wf(),
            id >= NPC_LIST_MAX_CAP ==> r == Err::<(), GameError>(
                GameError::InvalidValue(InvalidValue::IdOutOfBounds),
            ) && final(self)@ == old(self)@,
            id < NPC_LIST_MAX_CAP ==> r == Ok::<(), GameError>(()) && final(self)@ == old(
                self,
            )@.place(id as int, npc),
    {
        if id as usize >= NPC_LIST_MAX_CAP {
            return Err(GameError::InvalidValue(InvalidValue::IdOutOfBounds));
        }
        self.place_at(id, npc);
        Ok(())
    }

    /// The entity in slot `id`, if `id` is below the capacity.
    ///
    /// A checked-out slot still holds the entity as it was at checkout.
    pub fn get_npc(&self, id: usize) -> (r: Option<&NPC>)
        requires
            self.wf(),
        ensures
            id < NPC_LIST_MAX_CAP ==> r == Some(&self@.slots[id as int]),
            id >= NPC_LIST_MAX_CAP ==> r is None,
    {
        if id < NPC_LIST_MAX_CAP {
            Some(&self.npcs[id])
        } else {
            None
        }
    }

    /// Takes slot `id` for exclusive use and returns a copy of its entity.
    ///
    /// Fails if the slot is already checked out.
    pub fn checkout(&mut self, id: u16) -> (r: Result<NPC, GameError>)
        requires
            old(self).wf(),
        ensures
            final(self).wf(),
            id >= NPC_LIST_MAX_CAP ==> r == Err::<NPC, GameError>(
                GameError::InvalidValue(InvalidValue::IdOutOfBounds),
            ) && final(self)@ == old(self)@,
            id < NPC_LIST_MAX_CAP && old(self)@.busy[id as int] ==> r == Err::<NPC, GameError>(
                GameError::BorrowConflict,
            ) && final(self)@ == old(self)@,
            id < NPC_LIST_MAX_CAP && !old(self)@.busy[id as int] ==> r == Ok::<NPC, GameError>(
                old(self)@.slots[id as int],
            ) && final(self)@ == (NPCListState {
                busy: old(self)@.busy.update(id as int, true),
                ..old(self)@
            }),
    {
        if id as usize >= NPC_LIST_MAX_CAP {
            return Err(GameError::InvalidValue(InvalidValue::IdOutOfBounds));
        }
        if self.busy[id as usize] {
            return Err(GameError::BorrowConflict);
        }
        self.busy.set(id as usize, true);
        Ok(self.npcs[id as usize])
    }

    /// Writes `npc` back into the checked-out slot `id` and releases it.
    ///
    /// Fails if the slot is not checked out.
    pub fn checkin(&mut self, id: u16, npc: NPC) -> (r: GameResult)
        requires
            old(self).wf(),
        ensures
            final(self).wf(),
            id >= NPC_LIST_MAX_CAP ==> r == Err::<(), GameError>(
                GameError::InvalidValue(InvalidValue::IdOutOfBounds),
            ) && final(self)@ == old(self)@,
            id < NPC_LIST_MAX_CAP && !old(self)@.busy[id as int] ==> r == Err::<(), GameError>(
                GameError::NotCheckedOut,
            ) && final(self)@ == old(self)@,
            id < NPC_LIST_MAX_CAP && old(self)@.busy[id as int] ==> r == Ok::<(), GameError>(())
                && final(self)@ == (NPCListState {
                slots: old(self)@.slots.update(id as int, npc),
                busy: old(self)@.busy.update(id as int, false),
                ..old(self)@
            }),
    {
        if id as usize >= NPC_LIST_MAX_CAP {
            return Err(GameError::InvalidValue(InvalidValue::IdOutOfBounds));
        }
        if !self.busy[id as usize] {
            return Err(GameError::NotCheckedOut);
        }
        self.npcs.set(id as usize, npc);
        self.busy.set(id as usize, false);
        Ok(())
    }

    /// An iterator over the slots below the cursor, re-read at every step.
    pub fn iter(&self) -> (r: NPCListMutableIterator)
        ensures
            r.pos() == 0,
    {
        NPCListMutableIterator::new()
    }

    /// An iterator over the alive slots that are not checked out, below the
    /// cursor, re-read at every step.
    pub fn iter_alive(&self) -> (r: NPCListMutableAliveIterator)
        ensures
            r.pos() == 0,
    {
        NPCListMutableAliveIterator::new()
    }

    /// Empties every slot that the alive-only view yields, giving each the
    /// id of its position in that walk, and resets the cursor to 0.
    pub fn clear(&mut self)
        requires
            old(self).wf(),
        ensures
            final(self).wf(),
            final(self)@ == old(self)@.cleared(),
            final(self)@.cursor == 0,
            final(self)@.alive_from(0) == 0,
    {
        let mut j: u16 = 0;
        let mut idx: u16 = 0;
        while j < self.max_npc
            invariant
                self.wf(),
                self@.cursor == old(self)@.cursor,
                self@.busy == old(self)@.busy,
                self@.seed == old(self)@.seed,
                j <= self@.cursor,
                idx <= j,
                idx == old(self)@.alive_before(j as int),
                forall|i: int|
                    0 <= i < NPC_LIST_MAX_CAP ==> self@.slots[i] == (if i < j {
                        old(self)@.cleared_slot(i)
                    } else {
                        old(self)@.slots[i]
                    }),
            decreases self@.cursor - j,
        {
            if self.npcs[j as usize].cond.alive() && !self.busy[j as usize] {
                let mut empty = NPC::empty();
                empty.id = idx;
                self.npcs.set(j as usize, empty);
                idx += 1;
            }
            j += 1;
        }
        self.max_npc = 0;
        assert(self@.slots =~= old(self)@.cleared().slots);
    }

    /// The cursor: one more than the highest index placed since the last clear.
    pub fn current_capacity(&self) -> (r: u16)
        ensures
            r == self@.cursor,
    {
        self.max_npc
    }

    /// The fixed number of slots.
    pub fn max_capacity(&self) -> (r: u16)
        ensures
            r == NPC_LIST_MAX_CAP,
    {
        NPC_LIST_MAX_CAP as u16
    }
}

/// A walk over the slots below the cursor. It holds only its position, so the
/// registry may change between steps; each step reads the cursor afresh.
pub struct NPCListMutableIterator {
    index: u16,
}

impl NPCListMutableIterator {
    /// The index that the next step looks at.
    pub closed spec fn pos(&self) -> int {
        self.index as int
    }

    /// A walk that starts at slot 0.
    pub fn new() -> (r: NPCListMutableIterator)
        ensures
            r.pos() == 0,
    {
        NPCListMutableIterator { index: 0 }
    }

    /// The next slot index, if it is below the registry's current cursor.
    pub fn next(&mut self, map: &NPCList) -> (r: Option<u16>)
        requires
            map.wf(),
        ensures
            old(self).pos() < map@.cursor ==> r == Some(old(self).pos() as u16) && final(self).pos()
                == old(self).pos() + 1,
            old(self).pos() >= map@.cursor ==> r is None && final(self).pos() == old(self).pos(),
    {
        if self.index >= map.max_npc {
            return None;
        }
        let item = self.index;
        self.index += 1;
        Some(item)
    }
}

/// A walk over the slots below the cursor whose entity is alive and which are
/// not checked out. Each step reads the cursor afresh.
pub struct NPCListMutableAliveIterator {
    index: u16,
}

impl NPCListMutableAliveIterator {
    /// The index from which the next step searches.
    pub closed spec fn pos(&self) -> int {
        self.index as int
    }

    /// A walk that starts at slot 0.
    pub fn new() -> (r: NPCListMutableAliveIterator)
        ensures
            r.pos() == 0,
    {
        NPCListMutableAliveIterator { index: 0 }
    }

    /// The next index below the cursor whose entity is alive and whose slot
    /// is not checked out. A checked-out slot is passed over, as a dead one is.
    pub fn next(&mut self, map: &NPCList) -> (r: Option<u16>)
        requires
            map.wf(),
        ensures
            old(self).pos() >= map@.cursor ==> r is None && final(self).pos() == old(self).pos(),
            old(self).pos() < map@.cursor && map@.next_alive(old(self).pos()) < map@.cursor ==> r
                == Some(map@.next_alive(old(self).pos()) as u16) && final(self).pos()
                == map@.next_alive(old(self).pos()) + 1,
            old(self).pos() < map@.cursor && map@.next_alive(old(self).pos()) == map@.cursor ==> r
                is None && final(self).pos() == map@.cursor,
    {
        while self.index < map.max_npc
            invariant
                map.wf(),
                map@.next_alive(old(self).pos()) == map@.next_alive(self.pos()),
                old(self).pos() <= self.pos(),
                old(self).pos() < map@.cursor ==> self.pos() <= map@.cursor,
                old(self).pos() >= map@.cursor ==> self.pos() == old(self).pos(),
            decreases map@.cursor - self.pos(),
        {
            let i = self.index;
            self.index += 1;
            if map.npcs[i as usize].cond.alive() && !map.busy[i as usize] {
                return Some(i);
            }
        }
        None
    }

    /// How many more items the walk yields if the registry does not change.
    pub fn count(self, map: &NPCList) -> (r: usize)
        requires
            map.wf(),
        ensures
            r == map@.alive_from(self.pos()),
    {
        let mut i: u16 = self.index;
        let mut n: usize = 0;
        while i < map.max_npc
            invariant
                map.wf(),
                n <= i,
                n + map@.alive_from(i as int) == map@.alive_from(self.pos()),
            decreases map@.cursor - i,
        {
            if map.npcs[i as usize].cond.alive() && !map.busy[i as usize] {
                n += 1;
            }
            i += 1;
        }
        n
    }
}

} // verus!
