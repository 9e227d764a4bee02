use vstd::prelude::*;

verus! {

/// Condition flags of an entity.
#[derive(Clone, Copy, Debug, PartialEq, Eq, Structural)]
pub struct NPCCond {
    pub alive: bool,
}

impl NPCCond {
    /// Whether the entity is currently active.
    pub fn alive(&self) -> (r: bool)
        ensures
            r == self.alive,
    {
        self.alive
    }

    /// Marks the entity active or inactive.
    pub fn set_alive(&mut self, alive: bool)
        ensures
            final(self).alive == alive,
    {
        self.alive = alive;
    }
}

/// The entity payload stored in one slot of the registry.
#[derive(Clone, Copy, Debug, PartialEq, Eq, Structural)]
pub struct NPC {
    /// The slot index that holds the entity; set on every placement.
    pub id: u16,
    pub cond: NPCCond,
    /// Facing direction.
    pub direction: u8,
    /// Direction override used by scripts; 0 means "not set".
    pub tsc_direction: u16,
    /// Seed of the entity's own random number state.
    pub rng_seed: i32,
    /// Tick counter advanced by the entity's logic.
    pub action_counter: u16,
}

/// The empty entity that fills an unused slot.
pub open spec fn empty_npc() -> NPC {
    NPC {
        id: 0,
        cond: NPCCond { alive: false },
        direction: 0,
        tsc_direction: 0,
        rng_seed: 0,
        action_counter: 0,
    }
}

impl NPC {
    /// An inactive entity with every field zero.
    pub fn empty() -> (r: NPC)
        ensures
            r == empty_npc(),
    {
        NPC {
            id: 0,
            cond: NPCCond { alive: false },
            direction: 0,
            tsc_direction: 0,
            rng_seed: 0,
            action_counter: 0,
        }
    }

    /// Initialises the entity's random number state from `seed`.
    pub fn init_rng(&mut self, seed: i32)
        ensures
            *final(self) == (NPC { rng_seed: seed, ..*old(self) }),
    {
        self.rng_seed = seed;
    }
}

} // verus!
