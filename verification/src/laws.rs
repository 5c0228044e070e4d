//! The engine's laws: properties that relate several operations or hold of
//! every reachable state, proved once and for all over the spec-level
//! transitions that the executable operations are pinned to.

use vstd::arithmetic::div_mod::lemma_div_is_ordered;
use vstd::prelude::*;

use crate::constants::ATTACK_COST;
use crate::constants::MONSTER_LEVEL_SPAN;
use crate::engine::attack_spec;
use crate::engine::create_game_spec;
use crate::engine::create_player_spec;
use crate::engine::monster_hp_curve;
use crate::engine::monster_level_curve;
use crate::engine::spawn_monster_spec;
use crate::engine::AttackResult;
use crate::error::GameError;
use crate::state::GameConfig;
use crate::state::MonsterAccount;
use crate::state::PlayerModel;
use crate::state::ResourceLedger;

verus! {

/// Game creation succeeds exactly once per game key: with no configuration
/// stored yet it succeeds for every positive capacity, and once one is
/// stored every further creation fails with `AlreadyInitialized`, whatever
/// its arguments.
pub proof fn lemma_create_game_exactly_once(
    admin: u64,
    max_items_per_player: u8,
    stored: GameConfig,
    later_admin: u64,
    later_cap: u8,
)
    requires
        max_items_per_player > 0,
    ensures
        create_game_spec(None, admin, max_items_per_player) is Ok,
        create_game_spec(Some(stored), later_admin, later_cap) == Err::<GameConfig, GameError>(
            GameError::AlreadyInitialized,
        ),
{
}

/// The inventory bound holds after every operation that touches a player:
/// a freshly created player starts within the game's capacity, and an
/// attack — the only operation that grants loot — keeps the attacker within
/// it.
pub proof fn lemma_inventory_bound_preserved(
    game: GameConfig,
    owner: u64,
    now: u64,
    p: PlayerModel,
    m: MonsterAccount,
)
    requires
        p.wf(),
        m.wf(),
    ensures
        create_player_spec(Some(game), false, owner, now) matches Ok((_, fresh))
            ==> fresh.inventory.items.len() <= game.max_items_per_player as int,
        attack_spec(p, m) matches Ok((p2, _, _)) ==> p2.inventory.items.len()
            <= p2.inventory.capacity as int && p2.inventory.capacity == p.inventory.capacity,
{
}

/// Collecting action points never lowers the balance when time has not run
/// backwards, and a call with zero elapsed time changes nothing at all: the
/// faucet is monotonic and safe to retry.
pub proof fn lemma_collect_monotonic(l: ResourceLedger, now: u64)
    requires
        l.wf(),
    ensures
        l.collect_spec(now).0.balance >= l.balance,
        now <= l.last_collected_at ==> l.collect_spec(now) == (l, 0u64),
{
}

/// Replaying a collection with the same `now` accrues nothing the second
/// time: the first call advances the accrual clock to `now`, so the retry is
/// a no-op and the faucet is idempotent under replay.
pub proof fn lemma_collect_replay_idempotent(l: ResourceLedger, now: u64)
    requires
        l.wf(),
    ensures
        l.collect_spec(now).0.collect_spec(now) == (l.collect_spec(now).0, 0u64),
{
}

/// An attack on a living monster by an attacker whose balance is below the
/// attack cost is rejected with `InsufficientActionPoints`; the transition
/// produces no new state, so nothing — monster hit points, balance or
/// inventory — changes.
pub proof fn lemma_insufficient_points_rejected(p: PlayerModel, m: MonsterAccount)
    requires
        m.alive,
        p.action_points.balance < ATTACK_COST,
    ensures
        attack_spec(p, m) == Err::<(PlayerModel, MonsterAccount, AttackResult), GameError>(
            GameError::InsufficientActionPoints,
        ),
{
}

/// A dead monster is terminal: every further attack on it is rejected with
/// `MonsterDead` and produces no new state.
pub proof fn lemma_dead_monster_terminal(p: PlayerModel, m: MonsterAccount)
    requires
        !m.alive,
    ensures
        attack_spec(p, m) == Err::<(PlayerModel, MonsterAccount, AttackResult), GameError>(
            GameError::MonsterDead,
        ),
{
}

/// Two spawns in the same game never share an id: the first takes the
/// current sequence number and the second, run on the configuration the
/// first returned, takes the next one.
pub proof fn lemma_spawn_ids_unique(game: GameConfig)
    requires
        game.monster_sequence < u64::MAX,
    ensures
        spawn_monster_spec(Some(game)) matches Ok((g1, m1)) ==> {
            &&& m1.id == game.monster_sequence
            &&& spawn_monster_spec(Some(g1)) matches Ok((_, m2)) ==> m2.id == game.monster_sequence
                + 1 && m2.id != m1.id
        },
{
}

/// A killing attack still kills when the attacker's inventory is full: the
/// monster transitions to its terminal dead state, while the loot grant is
/// dropped and the inventory is left exactly as it was.
pub proof fn lemma_full_inventory_drops_loot(p: PlayerModel, m: MonsterAccount)
    requires
        p.wf(),
        m.wf(),
        p.inventory.items.len() == p.inventory.capacity as int,
    ensures
        attack_spec(p, m) matches Ok((p2, m2, res)) ==> (res.monster_defeated ==> !m2.alive
            && m2.hp == 0 && p2.inventory == p.inventory && !res.loot_granted),
{
}

/// The difficulty curve only rises with the spawn sequence: a later monster
/// never has fewer hit points or a lower level than an earlier one, so the
/// game gets monotonically harder as the sequence grows.
pub proof fn lemma_difficulty_monotonic(earlier: u64, later: u64)
    requires
        earlier <= later,
    ensures
        monster_hp_curve(earlier) <= monster_hp_curve(later),
        monster_level_curve(earlier) <= monster_level_curve(later),
{
    assert(earlier / MONSTER_LEVEL_SPAN <= later / MONSTER_LEVEL_SPAN) by {
        lemma_div_is_ordered(earlier as int, later as int, MONSTER_LEVEL_SPAN as int);
    }
}

/// The configuration's global counters only ever increase: player creation
/// advances the player count and leaves the monster sequence alone, and a
/// spawn advances the monster sequence and leaves the player count alone.
/// Neither touches the admin or the capacity, which stay as set at creation.
pub proof fn lemma_counters_only_increase(game: GameConfig, owner: u64, now: u64)
    requires
        game.player_count < u64::MAX,
        game.monster_sequence < u64::MAX,
    ensures
        create_player_spec(Some(game), false, owner, now) matches Ok((g2, _)) ==> g2.player_count
            == game.player_count + 1 && g2.monster_sequence == game.monster_sequence && g2.admin
            == game.admin && g2.max_items_per_player == game.max_items_per_player,
        spawn_monster_spec(Some(game)) matches Ok((g2, _)) ==> g2.monster_sequence
            == game.monster_sequence + 1 && g2.player_count == game.player_count && g2.admin
            == game.admin && g2.max_items_per_player == game.max_items_per_player,
{
}

} // verus!
