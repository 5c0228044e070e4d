//! The five operations of the engine, each a pure, atomic state transition
//! over the entities it names: create game, create player, spawn monster,
//! attack monster, and deposit (collect) action points. Each executable
//! operation is pinned to a spec-level transition function; the laws of the
//! engine are proved over those transitions.

use vstd::prelude::*;

use crate::constants::ATTACK_COST;
use crate::constants::DAMAGE_BASE;
use crate::constants::DAMAGE_PER_LEVEL;
use crate::constants::MONSTER_BASE_HP;
use crate::constants::MONSTER_HP_STEP;
use crate::constants::MONSTER_LEVEL_SPAN;
use crate::constants::PLAYER_BASE_HP;
use crate::constants::PLAYER_BASE_LEVEL;
use crate::error::GameError;
use crate::state::GameConfig;
use crate::state::Inventory;
use crate::state::InventoryModel;
use crate::state::MonsterAccount;
use crate::state::PlayerAccount;
use crate::state::PlayerModel;
use crate::state::ResourceLedger;

verus! {

/// The game-creation transition: succeeds exactly when no configuration
/// exists yet under the game key and the capacity argument is positive,
/// and then yields a configuration with zeroed counters.
pub open spec fn create_game_spec(
    existing: Option<GameConfig>,
    admin: u64,
    max_items_per_player: u8,
) -> Result<GameConfig, GameError> {
    if existing is Some {
        Err(GameError::AlreadyInitialized)
    } else if max_items_per_player == 0 {
        Err(GameError::InvalidConfig)
    } else {
        Ok(
            (GameConfig {
                admin,
                max_items_per_player,
                monster_sequence: 0u64,
                player_count: 0u64,
            }),
        )
    }
}

/// Create the game configuration under a game key. `existing` is whatever
/// configuration the store currently holds under that key; a second creation
/// for the same key therefore fails with `AlreadyInitialized`, and a zero
/// capacity with `InvalidConfig`. The caller becomes the admin.
pub fn create_game(existing: Option<GameConfig>, admin: u64, max_items_per_player: u8) -> (r:
    Result<GameConfig, GameError>)
    ensures
        r == create_game_spec(existing, admin, max_items_per_player),
        r is Ok <==> existing is None && max_items_per_player > 0,
        r is Ok ==> r->Ok_0.wf() && r->Ok_0.admin == admin && r->Ok_0.max_items_per_player
            == max_items_per_player && r->Ok_0.monster_sequence == 0 && r->Ok_0.player_count == 0,
        existing is Some ==> r == Err::<GameConfig, GameError>(GameError::AlreadyInitialized),
        existing is None && max_items_per_player == 0 ==> r == Err::<GameConfig, GameError>(
            GameError::InvalidConfig,
        ),
{
    if existing.is_some() {
        Err(GameError::AlreadyInitialized)
    } else if max_items_per_player == 0 {
        Err(GameError::InvalidConfig)
    } else {
        Ok(
            GameConfig {
                admin,
                max_items_per_player,
                monster_sequence: 0,
                player_count: 0,
            },
        )
    }
}

/// The player-creation transition: needs an existing game and no account yet
/// for this owner; yields the configuration with its player count advanced
/// and a fresh player at full health with an empty inventory and an empty
/// ledger whose accrual clock starts at `now`.
pub open spec fn create_player_spec(
    game: Option<GameConfig>,
    player_exists: bool,
    owner: u64,
    now: u64,
) -> Result<(GameConfig, PlayerModel), GameError> {
    if game is None {
        Err(GameError::GameNotFound)
    } else if player_exists {
        Err(GameError::DuplicatePlayer)
    } else {
        let g = game->0;
        Ok(
            (
                (GameConfig { player_count: (g.player_count + 1) as u64, ..g }),
                (PlayerModel {
                    owner,
                    hp: PLAYER_BASE_HP,
                    max_hp: PLAYER_BASE_HP,
                    level: PLAYER_BASE_LEVEL,
                    inventory: InventoryModel {
                        capacity: g.max_items_per_player,
                        items: Seq::<u64>::empty(),
                    },
                    action_points: ResourceLedger { balance: 0u64, last_collected_at: now },
                }),
            ),
        )
    }
}

/// Create a player account for `owner` in an existing game. `game` is the
/// configuration the store holds under the game key (`GameNotFound` when
/// there is none) and `existing` whatever account it already holds under the
/// owner key (`DuplicatePlayer` when there is one). On success the returned
/// configuration replaces the stored one, its player count advanced by one.
pub fn create_player(
    game: Option<GameConfig>,
    existing: Option<&PlayerAccount>,
    owner: u64,
    now: u64,
) -> (r: Result<(GameConfig, PlayerAccount), GameError>)
    requires
        game matches Some(g) ==> g.player_count < u64::MAX,
    ensures
        r is Ok <==> game is Some && existing is None,
        game is None ==> (r matches Err(e) && e == GameError::GameNotFound),
        game is Some && existing is Some ==> (r matches Err(e) && e == GameError::DuplicatePlayer),
        r matches Ok((cfg, p)) ==> Ok::<_, GameError>((cfg, p@)) == create_player_spec(
            game,
            existing is Some,
            owner,
            now,
        ),
        r matches Ok((cfg, p)) ==> (game->0.wf() ==> cfg.wf() && p@.wf()),
{
    if game.is_none() {
        return Err(GameError::GameNotFound);
    }
    if existing.is_some() {
        return Err(GameError::DuplicatePlayer);
    }
    let g = game.unwrap();
    let cfg = GameConfig { player_count: g.player_count + 1, ..g };
    let player = PlayerAccount {
        owner,
        hp: PLAYER_BASE_HP,
        max_hp: PLAYER_BASE_HP,
        level: PLAYER_BASE_LEVEL,
        inventory: Inventory::new(g.max_items_per_player),
        action_points: ResourceLedger::new(now),
    };
    Ok((cfg, player))
}

/// Hit points the difficulty curve assigns to the monster with sequence id
/// `id`: a base amount plus a fixed step per earlier spawn, saturating at
/// the integer ceiling. Deterministic and reproducible from the id alone.
pub open spec fn monster_hp_curve(id: u64) -> u64 {
    if id > (u64::MAX - MONSTER_BASE_HP) / (MONSTER_HP_STEP as int) {
        u64::MAX
    } else {
        (MONSTER_BASE_HP + MONSTER_HP_STEP * id) as u64
    }
}

/// Level the difficulty curve assigns to the monster with sequence id `id`:
/// one step up for every `MONSTER_LEVEL_SPAN` earlier spawns.
pub open spec fn monster_level_curve(id: u64) -> u64 {
    (id / MONSTER_LEVEL_SPAN + 1) as u64
}

/// The spawn transition: needs an existing game; allocates the current
/// monster sequence number as the new monster's id, advances the counter,
/// and fixes the monster's stats by the difficulty curve. Allocation and
/// increment happen in this one transition, so no two spawns share an id.
pub open spec fn spawn_monster_spec(game: Option<GameConfig>) -> Result<
    (GameConfig, MonsterAccount),
    GameError,
> {
    if game is None {
        Err(GameError::GameNotFound)
    } else {
        let g = game->0;
        Ok(
            (
                (GameConfig { monster_sequence: (g.monster_sequence + 1) as u64, ..g }),
                (MonsterAccount {
                    id: g.monster_sequence,
                    hp: monster_hp_curve(g.monster_sequence),
                    max_hp: monster_hp_curve(g.monster_sequence),
                    level: monster_level_curve(g.monster_sequence),
                    loot_table: g.monster_sequence,
                    alive: true,
                }),
            ),
        )
    }
}

/// Spawn a monster in an existing game; any player may trigger it. `game`
/// is the configuration the store holds under the game key (`GameNotFound`
/// when there is none). On success the returned configuration, with the
/// sequence counter advanced, replaces the stored one atomically together
/// with the new monster record, so ids are never reused.
pub fn spawn_monster(game: Option<GameConfig>) -> (r: Result<
    (GameConfig, MonsterAccount),
    GameError,
>)
    requires
        game matches Some(g) ==> g.monster_sequence < u64::MAX,
    ensures
        r is Ok <==> game is Some,
        game is None ==> (r matches Err(e) && e == GameError::GameNotFound),
        r matches Ok(out) ==> Ok::<_, GameError>(out) == spawn_monster_spec(game),
        r matches Ok((cfg, m)) ==> m.id == game->0.monster_sequence && cfg.monster_sequence
            == game->0.monster_sequence + 1 && m.alive && m.wf(),
        r matches Ok((cfg, m)) ==> (game->0.wf() ==> cfg.wf()),
{
    if game.is_none() {
        return Err(GameError::GameNotFound);
    }
    let g = game.unwrap();
    let id = g.monster_sequence;
    let hp = monster_hp_at(id);
    let cfg = GameConfig { monster_sequence: id + 1, ..g };
    let monster = MonsterAccount {
        id,
        hp,
        max_hp: hp,
        level: monster_level_at(id),
        loot_table: id,
        alive: true,
    };
    Ok((cfg, monster))
}

/// Evaluate the hit-point curve on a concrete id.
fn monster_hp_at(id: u64) -> (hp: u64)
    ensures
        hp == monster_hp_curve(id),
        hp > 0,
{
    if id > (u64::MAX - MONSTER_BASE_HP) / MONSTER_HP_STEP {
        u64::MAX
    } else {
        MONSTER_BASE_HP + MONSTER_HP_STEP * id
    }
}

/// Evaluate the level curve on a concrete id.
fn monster_level_at(id: u64) -> (level: u64)
    ensures
        level == monster_level_curve(id),
{
    id / MONSTER_LEVEL_SPAN + 1
}

/// What one successful attack did: the damage dealt, whether it killed the
/// monster, and whether the loot grant went through or was dropped because
/// the attacker's inventory was full.
#[derive(Clone, Copy, Debug, PartialEq, Eq, Structural)]
pub struct AttackResult {
    /// Hit points subtracted from the monster (before the floor at zero).
    pub damage: u64,
    /// True when this attack reduced the monster's hit points to zero.
    pub monster_defeated: bool,
    /// True when the kill's loot was appended to the attacker's inventory.
    pub loot_granted: bool,
}

/// Damage the deterministic combat formula deals for an attacker of the
/// given level: a base amount plus a fixed bonus per level, saturating at
/// the integer ceiling. A pure function of recorded state, so every outcome
/// is reproducible.
pub open spec fn damage_at_level(level: u64) -> u64 {
    if level > (u64::MAX - DAMAGE_BASE) / (DAMAGE_PER_LEVEL as int) {
        u64::MAX
    } else {
        (DAMAGE_BASE + DAMAGE_PER_LEVEL * level) as u64
    }
}

/// Evaluate the damage formula on a concrete level.
fn damage_at(level: u64) -> (damage: u64)
    ensures
        damage == damage_at_level(level),
        damage > 0,
{
    if level > (u64::MAX - DAMAGE_BASE) / DAMAGE_PER_LEVEL {
        u64::MAX
    } else {
        DAMAGE_BASE + DAMAGE_PER_LEVEL * level
    }
}

/// The attack transition. Rejected, in this order, when the monster is
/// already dead (`MonsterDead`), the attacker's balance is below the attack
/// cost (`InsufficientActionPoints`), or the attacker's own hit points are
/// zero (`PlayerDefeated`). Otherwise, in one atomic step: the cost is
/// debited, damage computed from the attacker's level alone is subtracted
/// from the monster's hit points with a floor at zero, and if they reach
/// zero the monster becomes terminally dead and its loot is appended to the
/// attacker's inventory — unless the inventory is at capacity, in which case
/// the loot is dropped and everything else still applies, because combat
/// resolution is never blocked by a full inventory.
pub open spec fn attack_spec(p: PlayerModel, m: MonsterAccount) -> Result<
    (PlayerModel, MonsterAccount, AttackResult),
    GameError,
> {
    if !m.alive {
        Err(GameError::MonsterDead)
    } else if p.action_points.balance < ATTACK_COST {
        Err(GameError::InsufficientActionPoints)
    } else if p.hp == 0 {
        Err(GameError::PlayerDefeated)
    } else {
        let damage = damage_at_level(p.level);
        let new_hp: u64 = if damage >= m.hp { 0u64 } else { (m.hp - damage) as u64 };
        let killed = new_hp == 0;
        let looted = killed && p.inventory.items.len() < p.inventory.capacity as int;
        Ok(
            (
                (PlayerModel {
                    inventory: if looted {
                        InventoryModel {
                            capacity: p.inventory.capacity,
                            items: p.inventory.items.push(m.loot_table),
                        }
                    } else {
                        p.inventory
                    },
                    action_points: ResourceLedger {
                        balance: (p.action_points.balance - ATTACK_COST) as u64,
                        last_collected_at: p.action_points.last_collected_at,
                    },
                    ..p
                }),
                (MonsterAccount { hp: new_hp, alive: !killed, ..m }),
                (AttackResult { damage, monster_defeated: killed, loot_granted: looted }),
            ),
        )
    }
}

/// Resolve one attack by `player` on `monster`, exactly as `attack_spec`
/// states. On any error both accounts are unchanged; on success both are
/// updated together, as one atomic transition.
pub fn attack_monster(player: &mut PlayerAccount, monster: &mut MonsterAccount) -> (r: Result<
    AttackResult,
    GameError,
>)
    requires
        old(player)@.wf(),
        old(monster).wf(),
    ensures
        match attack_spec(old(player)@, *old(monster)) {
            Ok((p2, m2, res)) => r == Ok::<AttackResult, GameError>(res) && final(player)@ == p2
                && *final(monster) == m2,
            Err(e) => r == Err::<AttackResult, GameError>(e) && *final(player) == *old(player)
                && *final(monster) == *old(monster),
        },
        final(player)@.wf(),
        final(monster).wf(),
        final(player)@.inventory.items.len() <= final(player)@.inventory.capacity as int,
        !old(monster).alive ==> (r matches Err(e) && e == GameError::MonsterDead),
        old(monster).alive && old(player)@.action_points.balance < ATTACK_COST ==> (r matches
            Err(e) && e == GameError::InsufficientActionPoints),
        r is Ok ==> final(player)@.action_points.balance
            == old(player)@.action_points.balance - ATTACK_COST,
        r is Ok ==> (!final(monster).alive <==> r->Ok_0.monster_defeated),
        final(player)@.owner == old(player)@.owner && final(player)@.hp == old(player)@.hp
            && final(player)@.level == old(player)@.level,
        final(monster).id == old(monster).id,
{
    if !monster.alive {
        return Err(GameError::MonsterDead);
    }
    if player.action_points.balance < ATTACK_COST {
        return Err(GameError::InsufficientActionPoints);
    }
    if player.hp == 0 {
        return Err(GameError::PlayerDefeated);
    }
    player.action_points.spend(ATTACK_COST).unwrap();
    let damage = damage_at(player.level);
    let killed: bool = damage >= monster.hp;
    monster.hp = if killed {
        0
    } else {
        monster.hp - damage
    };
    monster.alive = !killed;
    let mut looted = false;
    if killed && !player.inventory.is_full() {
        player.inventory.grant(monster.loot_table).unwrap();
        looted = true;
    }
    Ok(AttackResult { damage, monster_defeated: killed, loot_granted: looted })
}

/// Resolve one attack under the optimistic-concurrency discipline: the
/// caller passes the monster record as it read it, and the attack is applied
/// only if the stored record is still exactly that snapshot. A stale
/// snapshot fails with `ConcurrentModification`, changes nothing, and the
/// caller retries after re-reading; so a concurrent mutation is never
/// silently overwritten.
pub fn attack_monster_guarded(
    player: &mut PlayerAccount,
    monster: &mut MonsterAccount,
    snapshot: &MonsterAccount,
) -> (r: Result<AttackResult, GameError>)
    requires
        old(player)@.wf(),
        old(monster).wf(),
    ensures
        *snapshot != *old(monster) ==> (r matches Err(e) && e
            == GameError::ConcurrentModification) && *final(player) == *old(player)
            && *final(monster) == *old(monster),
        *snapshot == *old(monster) ==> match attack_spec(old(player)@, *old(monster)) {
            Ok((p2, m2, res)) => r == Ok::<AttackResult, GameError>(res) && final(player)@ == p2
                && *final(monster) == m2,
            Err(e) => r == Err::<AttackResult, GameError>(e) && *final(player) == *old(player)
                && *final(monster) == *old(monster),
        },
        final(player)@.wf(),
        final(monster).wf(),
{
    if *monster != *snapshot {
        return Err(GameError::ConcurrentModification);
    }
    attack_monster(player, monster)
}

/// Collect the action points that regenerated since the player's last
/// collection, exactly as `ResourceLedger::collect_spec` states, and return
/// the points gained. This is the system's only source of new action points.
/// A call with `now` at or before the last collection is a safe no-op that
/// returns zero, so retries and replays of the same `now` add nothing.
pub fn deposit_action_points(player: &mut PlayerAccount, now: u64) -> (accrued: u64)
    requires
        old(player)@.wf(),
    ensures
        (final(player).action_points, accrued) == old(player).action_points.collect_spec(now),
        final(player)@ == (PlayerModel {
            action_points: final(player).action_points,
            ..old(player)@
        }),
        final(player)@.action_points.balance >= old(player)@.action_points.balance,
        now <= old(player)@.action_points.last_collected_at ==> *final(player) == *old(player)
            && accrued == 0,
        final(player)@.wf(),
{
    player.action_points.collect(now)
}

} // verus!
