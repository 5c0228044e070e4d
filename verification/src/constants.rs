//! Fixed rule constants of the game. The regeneration rate, attack cost,
//! damage formula and difficulty curve are design constants of this engine;
//! they are chosen once here so that every outcome is deterministic and
//! reproducible from recorded state alone.

use vstd::prelude::*;

verus! {

/// Action points one attack costs.
pub const ATTACK_COST: u64 = 100;

/// Action points accrued per elapsed time unit by the collect operation.
pub const REGEN_RATE: u64 = 10;

/// Ceiling on a ledger's spendable balance: accrual never pushes the balance
/// past this, so action points cannot accumulate without bound.
pub const MAX_BALANCE: u64 = 1_000_000;

/// Hit points a freshly created player starts (and maxes out) with.
pub const PLAYER_BASE_HP: u64 = 100;

/// Level a freshly created player starts at.
pub const PLAYER_BASE_LEVEL: u64 = 1;

/// Base hit points of the weakest monster (sequence id 0).
pub const MONSTER_BASE_HP: u64 = 100;

/// Extra hit points each later monster in the spawn sequence gains.
pub const MONSTER_HP_STEP: u64 = 10;

/// How many spawns share one monster level before the level rises.
pub const MONSTER_LEVEL_SPAN: u64 = 10;

/// Base damage of an attack, before the level bonus.
pub const DAMAGE_BASE: u64 = 10;

/// Extra damage per attacker level.
pub const DAMAGE_PER_LEVEL: u64 = 5;

} // verus!
