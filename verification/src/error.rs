//! Error taxonomy of the engine. Every precondition violation aborts the
//! whole operation with no partial state change; `ConcurrentModification` is
//! the only error a caller resolves by blind retry, all others need different
//! arguments.

use vstd::prelude::*;

verus! {

/// Why an operation was rejected. Rejection never leaves a partial update
/// behind: the contracts of the engine functions state that on every error
/// the named accounts are unchanged.
#[derive(Clone, Copy, Debug, PartialEq, Eq, Structural)]
pub enum GameError {
    /// The capacity argument to game creation was zero.
    InvalidConfig,
    /// A game configuration already exists under this game key.
    AlreadyInitialized,
    /// No game configuration exists under the given game key.
    GameNotFound,
    /// A player account already exists for this owner in this game.
    DuplicatePlayer,
    /// The target monster is already dead; its record is terminal.
    MonsterDead,
    /// The attacker's action-point balance is below the attack cost.
    InsufficientActionPoints,
    /// The attacker's own hit points are zero.
    PlayerDefeated,
    /// The record changed since the caller's snapshot was taken; retry.
    ConcurrentModification,
    /// An explicit item grant was refused because the inventory is full.
    CapacityExceeded,
}

} // verus!
