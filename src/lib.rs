//! A fixed-capacity registry of non-player characters for one game stage.
//!
//! The registry is an index-addressed arena of slots. Spawning places an
//! entity in the first free slot at or after a minimum index, and a cursor
//! tracks the highest index placed so far. Both iteration views re-read that
//! cursor on every step, so entities spawned during a walk are visited by it.
pub mod error;
pub mod laws;
pub mod list;
pub mod npc;

pub use error::{GameError, GameResult, InvalidValue};
pub use list::{NPCList, NPCListMutableAliveIterator, NPCListMutableIterator, NPCListState, NPC_LIST_MAX_CAP};
pub use npc::{NPCCond, NPC};
