use vstd::prelude::*;

verus! {

/// Why a value handed to the registry was rejected.
#[derive(Clone, Copy, Debug, PartialEq, Eq, Structural)]
pub enum InvalidValue {
    /// The slot index lies at or beyond the registry's capacity.
    IdOutOfBounds,
    /// An exhaustive scan found no slot that could take the entity.
    NoFreeSlot,
}

/// Errors reported by the registry.
#[derive(Clone, Copy, Debug, PartialEq, Eq, Structural)]
pub enum GameError {
    /// The one recoverable error: a bad index, or no free slot.
    InvalidValue(InvalidValue),
    /// A slot was asked for exclusive use while another holder already had it.
    BorrowConflict,
    /// A slot was handed back that nobody had taken for exclusive use.
    NotCheckedOut,
}

/// The result of an operation that yields nothing but may fail.
pub type GameResult = Result<(), GameError>;

} // verus!
