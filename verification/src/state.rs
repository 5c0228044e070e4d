//! The persisted entities of the game and their invariants: the singleton
//! game configuration, player accounts with their inventory and action-point
//! ledger, and spawned monster accounts. Each entity is a plain record; the
//! surrounding store addresses them by stable keys (owner identity for a
//! player, sequence number for a monster, a fixed key for the configuration).

use vstd::prelude::*;

use crate::constants::MAX_BALANCE;
use crate::constants::REGEN_RATE;
use crate::error::GameError;

verus! {

/// The one shared configuration of a game instance: its admin, the fixed
/// per-player inventory capacity, and the global allocation counters.
/// Immutable after creation except the counters, which only increase.
#[derive(Clone, Copy, Debug, PartialEq, Eq, Structural)]
pub struct GameConfig {
    /// Identity of the caller that created the game.
    pub admin: u64,
    /// Ceiling on each player's inventory length, fixed at game creation.
    pub max_items_per_player: u8,
    /// Next monster id to allocate; each spawn takes it and increments it.
    pub monster_sequence: u64,
    /// How many player accounts were created in this game.
    pub player_count: u64,
}

impl GameConfig {
    /// A configuration is valid when its capacity is positive; a zero
    /// capacity is rejected at creation with `InvalidConfig`.
    pub open spec fn wf(&self) -> bool {
        self.max_items_per_player > 0
    }
}

/// A player's action-point balance and the time of its last accrual.
/// Action points regenerate with elapsed time and are spent by attacks;
/// the balance never exceeds `MAX_BALANCE` and, being unsigned, never
/// goes below zero.
#[derive(Clone, Copy, Debug, PartialEq, Eq, Structural)]
pub struct ResourceLedger {
    /// Action points currently spendable.
    pub balance: u64,
    /// Timestamp of the last accrual; accrual for the same time twice
    /// yields nothing the second time.
    pub last_collected_at: u64,
}

impl ResourceLedger {
    /// The ledger's invariant: the balance stays at or under the global cap.
    pub open spec fn wf(&self) -> bool {
        self.balance <= MAX_BALANCE
    }

    /// The accrual transition: elapsed time (never negative) times the
    /// regeneration rate is added to the balance, capped at `MAX_BALANCE`,
    /// and the accrual timestamp advances to `now`. Returns the new ledger
    /// and the points actually gained. A call with `now` at or before the
    /// last accrual changes nothing.
    pub open spec fn collect_spec(self, now: u64) -> (ResourceLedger, u64) {
        if now <= self.last_collected_at {
            (self, 0u64)
        } else {
            let elapsed: int = now - self.last_collected_at;
            let raw: int = self.balance + elapsed * REGEN_RATE;
            let capped: int = if raw > MAX_BALANCE { MAX_BALANCE as int } else { raw };
            (
                (ResourceLedger { balance: capped as u64, last_collected_at: now }),
                ((capped - self.balance) as u64),
            )
        }
    }

    /// A fresh ledger: nothing spendable, accrual clock set to `now`.
    pub fn new(now: u64) -> (r: ResourceLedger)
        ensures
            r == (ResourceLedger { balance: 0u64, last_collected_at: now }),
            r.wf(),
    {
        ResourceLedger { balance: 0, last_collected_at: now }
    }

    /// Accrue action points for the time elapsed since the last collection,
    /// exactly as `collect_spec` states, and return the points gained.
    pub fn collect(&mut self, now: u64) -> (accrued: u64)
        requires
            old(self).wf(),
        ensures
            (*final(self), accrued) == old(self).collect_spec(now),
            final(self).balance >= old(self).balance,
            accrued == final(self).balance - old(self).balance,
            now <= old(self).last_collected_at ==> *final(self) == *old(self) && accrued == 0,
            final(self).wf(),
    {
        if now <= self.last_collected_at {
            return 0;
        }
        let elapsed: u64 = now - self.last_collected_at;
        let accrual: u64 = if elapsed > MAX_BALANCE / REGEN_RATE {
            MAX_BALANCE
        } else {
            elapsed * REGEN_RATE
        };
        let gained: u64 = if self.balance > MAX_BALANCE - accrual {
            MAX_BALANCE - self.balance
        } else {
            accrual
        };
        self.balance = self.balance + gained;
        self.last_collected_at = now;
        gained
    }

    /// Spend `cost` action points. Succeeds exactly when the balance covers
    /// the cost; on failure the ledger is unchanged.
    pub fn spend(&mut self, cost: u64) -> (r: Result<(), GameError>)
        ensures
            r is Ok <==> old(self).balance >= cost,
            r is Ok ==> *final(self) == (ResourceLedger {
                balance: (old(self).balance - cost) as u64,
                last_collected_at: old(self).last_collected_at,
            }),
            r is Err ==> *final(self) == *old(self) && r->Err_0
                == GameError::InsufficientActionPoints,
            old(self).wf() ==> final(self).wf(),
    {
        if self.balance >= cost {
            self.balance = self.balance - cost;
            Ok(())
        } else {
            Err(GameError::InsufficientActionPoints)
        }
    }
}

/// The mathematical content of an inventory: its fixed capacity and the
/// sequence of item records it holds.
pub ghost struct InventoryModel {
    pub capacity: u8,
    pub items: Seq<u64>,
}

impl InventoryModel {
    /// The bound the whole engine maintains: never more items than the
    /// capacity fixed at game creation.
    pub open spec fn wf(&self) -> bool {
        self.items.len() <= self.capacity as int
    }
}

/// A fixed-capacity bag of item records, owned by one player. The capacity
/// is copied from the game configuration when the player is created and
/// never changes; the engine only appends, and only under the capacity
/// check.
#[derive(Clone, Debug, PartialEq, Eq)]
pub struct Inventory {
    /// Ceiling on the number of items, fixed at creation.
    pub capacity: u8,
    /// The item records, in the order they were granted.
    pub items: Vec<u64>,
}

impl View for Inventory {
    type V = InventoryModel;

    open spec fn view(&self) -> InventoryModel {
        InventoryModel { capacity: self.capacity, items: self.items@ }
    }
}

impl Inventory {
    /// An empty inventory with the given capacity.
    pub fn new(capacity: u8) -> (r: Inventory)
        ensures
            r@ == (InventoryModel { capacity: capacity, items: Seq::<u64>::empty() }),
            r@.wf(),
    {
        Inventory { capacity, items: Vec::new() }
    }

    /// Number of items currently held.
    pub fn len(&self) -> (n: usize)
        ensures
            n == self@.items.len(),
    {
        self.items.len()
    }

    /// Whether another grant would exceed the capacity.
    pub fn is_full(&self) -> (r: bool)
        ensures
            r == (self@.items.len() >= self@.capacity as int),
    {
        self.items.len() >= self.capacity as usize
    }

    /// Append one item record, refusing with `CapacityExceeded` exactly when
    /// the inventory is already at capacity; a refused grant changes nothing.
    pub fn grant(&mut self, item: u64) -> (r: Result<(), GameError>)
        ensures
            r is Ok <==> old(self)@.items.len() < old(self)@.capacity as int,
            r is Ok ==> final(self)@ == (InventoryModel {
                capacity: old(self)@.capacity,
                items: old(self)@.items.push(item),
            }),
            r is Err ==> *final(self) == *old(self) && r->Err_0 == GameError::CapacityExceeded,
            old(self)@.wf() ==> final(self)@.wf(),
    {
        if self.items.len() < self.capacity as usize {
            self.items.push(item);
            Ok(())
        } else {
            Err(GameError::CapacityExceeded)
        }
    }
}

/// The mathematical content of a player account, used by the engine's
/// transition functions and laws.
pub ghost struct PlayerModel {
    pub owner: u64,
    pub hp: u64,
    pub max_hp: u64,
    pub level: u64,
    pub inventory: InventoryModel,
    pub action_points: ResourceLedger,
}

impl PlayerModel {
    /// A player is valid when hit points respect their maximum, the
    /// inventory respects its capacity, and the ledger respects its cap.
    pub open spec fn wf(&self) -> bool {
        &&& self.hp <= self.max_hp
        &&& self.inventory.wf()
        &&& self.action_points.wf()
    }
}

/// A player's combat stats, inventory and action-point ledger. One account
/// per owner identity per game; mutated only by operations the owner
/// authors.
#[derive(Clone, Debug, PartialEq, Eq)]
pub struct PlayerAccount {
    /// Identity of the owning caller, unique per account within a game.
    pub owner: u64,
    /// Current hit points; zero blocks further attacks but is not terminal.
    pub hp: u64,
    /// Ceiling on `hp`.
    pub max_hp: u64,
    /// Combat level; feeds the deterministic damage formula.
    pub level: u64,
    /// Loot bag, bounded by the game's per-player capacity.
    pub inventory: Inventory,
    /// Spendable action points and their regeneration clock.
    pub action_points: ResourceLedger,
}

impl View for PlayerAccount {
    type V = PlayerModel;

    open spec fn view(&self) -> PlayerModel {
        PlayerModel {
            owner: self.owner,
            hp: self.hp,
            max_hp: self.max_hp,
            level: self.level,
            inventory: self.inventory@,
            action_points: self.action_points,
        }
    }
}

/// A spawned monster's combat state. Created by a spawn with stats fixed by
/// the difficulty curve; its hit points fall under attacks; once `alive` is
/// false the record is terminal and no operation mutates it again.
#[derive(Clone, Copy, Debug, PartialEq, Eq, Structural)]
pub struct MonsterAccount {
    /// Sequence id allocated at spawn; never reused within a game.
    pub id: u64,
    /// Current hit points; zero exactly when the monster is dead.
    pub hp: u64,
    /// Ceiling on `hp`, fixed by the difficulty curve at spawn.
    pub max_hp: u64,
    /// Difficulty level, fixed by the curve at spawn.
    pub level: u64,
    /// Reward rule reference; the item record granted to the killer.
    pub loot_table: u64,
    /// False exactly once the monster has been killed; terminal.
    pub alive: bool,
}

impl MonsterAccount {
    /// A monster is valid when hit points respect their maximum and `alive`
    /// tracks them: alive exactly while hit points remain.
    pub open spec fn wf(&self) -> bool {
        &&& self.hp <= self.max_hp
        &&& (self.alive <==> self.hp > 0)
    }
}

} // verus!
