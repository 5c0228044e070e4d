use rpg_engine::engine::attack_monster;
use rpg_engine::engine::attack_monster_guarded;
use rpg_engine::engine::create_game;
use rpg_engine::engine::create_player;
use rpg_engine::engine::deposit_action_points;
use rpg_engine::engine::spawn_monster;
use rpg_engine::error::GameError;
use rpg_engine::state::GameConfig;
use rpg_engine::state::Inventory;
use rpg_engine::state::MonsterAccount;
use rpg_engine::state::PlayerAccount;
use rpg_engine::state::ResourceLedger;

fn fresh_game() -> GameConfig {
    create_game(None, 1, 3).unwrap()
}

fn fresh_player(cfg: GameConfig, owner: u64, now: u64) -> PlayerAccount {
    create_player(Some(cfg), None, owner, now).unwrap().1
}

fn monster(id: u64, hp: u64, max_hp: u64, alive: bool) -> MonsterAccount {
    MonsterAccount {
        id,
        hp,
        max_hp,
        level: 1,
        loot_table: id,
        alive,
    }
}

#[test]
fn create_game_succeeds_with_valid_capacity() {
    let cfg = create_game(None, 42, 3).unwrap();
    assert_eq!(cfg.admin, 42);
    assert_eq!(cfg.max_items_per_player, 3);
    assert_eq!(cfg.monster_sequence, 0);
    assert_eq!(cfg.player_count, 0);
}

#[test]
fn create_game_rejects_zero_capacity() {
    assert_eq!(create_game(None, 42, 0), Err(GameError::InvalidConfig));
}

#[test]
fn create_game_fails_when_already_initialized() {
    let cfg = create_game(None, 42, 3).unwrap();
    assert_eq!(
        create_game(Some(cfg), 42, 3),
        Err(GameError::AlreadyInitialized)
    );
    assert_eq!(
        create_game(Some(cfg), 99, 7),
        Err(GameError::AlreadyInitialized)
    );
}

#[test]
fn create_player_starts_with_defaults() {
    let cfg = fresh_game();
    let (cfg2, player) = create_player(Some(cfg), None, 9, 5).unwrap();
    assert_eq!(cfg2.player_count, 1);
    assert_eq!(player.owner, 9);
    assert_eq!(player.hp, 100);
    assert_eq!(player.max_hp, 100);
    assert_eq!(player.level, 1);
    assert_eq!(player.inventory.capacity, 3);
    assert!(player.inventory.items.is_empty());
    assert_eq!(player.action_points.balance, 0);
    assert_eq!(player.action_points.last_collected_at, 5);
}

#[test]
fn create_player_rejects_duplicate_owner() {
    let cfg = fresh_game();
    let (cfg2, player) = create_player(Some(cfg), None, 9, 5).unwrap();
    assert_eq!(
        create_player(Some(cfg2), Some(&player), 9, 6),
        Err(GameError::DuplicatePlayer)
    );
}

#[test]
fn create_player_needs_a_game() {
    assert_eq!(
        create_player(None, None, 9, 5),
        Err(GameError::GameNotFound)
    );
}

#[test]
fn spawn_monster_needs_a_game() {
    assert_eq!(spawn_monster(None), Err(GameError::GameNotFound));
}

#[test]
fn spawn_monster_follows_difficulty_curve() {
    let cfg = fresh_game();
    let (_, m0) = spawn_monster(Some(cfg)).unwrap();
    assert_eq!(m0.id, 0);
    assert_eq!(m0.hp, 100);
    assert_eq!(m0.max_hp, 100);
    assert_eq!(m0.level, 1);
    assert!(m0.alive);

    let deep = GameConfig {
        monster_sequence: 25,
        ..cfg
    };
    let (_, m25) = spawn_monster(Some(deep)).unwrap();
    assert_eq!(m25.id, 25);
    assert_eq!(m25.hp, 100 + 10 * 25);
    assert_eq!(m25.level, 1 + 25 / 10);
}

#[test]
fn deposit_accrues_rate_times_elapsed() {
    let mut player = fresh_player(fresh_game(), 9, 100);
    let accrued = deposit_action_points(&mut player, 107);
    assert_eq!(accrued, 70);
    assert_eq!(player.action_points.balance, 70);
    assert_eq!(player.action_points.last_collected_at, 107);
}

#[test]
fn deposit_with_zero_elapsed_changes_nothing() {
    let mut player = fresh_player(fresh_game(), 9, 100);
    player.action_points.balance = 33;
    let before = player.clone();
    assert_eq!(deposit_action_points(&mut player, 100), 0);
    assert_eq!(player, before);
    assert_eq!(deposit_action_points(&mut player, 50), 0);
    assert_eq!(player, before);
}

#[test]
fn deposit_is_idempotent_under_replay() {
    let mut player = fresh_player(fresh_game(), 9, 100);
    let first = deposit_action_points(&mut player, 250);
    assert_eq!(first, 1500);
    let after_first = player.clone();
    let second = deposit_action_points(&mut player, 250);
    assert_eq!(second, 0);
    assert_eq!(player, after_first);
}

#[test]
fn deposit_caps_balance_at_maximum() {
    let mut player = fresh_player(fresh_game(), 9, 0);
    let accrued = deposit_action_points(&mut player, 2_000_000);
    assert_eq!(accrued, 1_000_000);
    assert_eq!(player.action_points.balance, 1_000_000);
    let again = deposit_action_points(&mut player, 2_000_001);
    assert_eq!(again, 0);
    assert_eq!(player.action_points.balance, 1_000_000);
}

#[test]
fn attack_fails_on_dead_monster_and_mutates_nothing() {
    let mut player = fresh_player(fresh_game(), 9, 0);
    player.action_points.balance = 500;
    let mut dead = monster(0, 0, 100, false);
    let before_player = player.clone();
    let before_monster = dead;
    assert_eq!(
        attack_monster(&mut player, &mut dead),
        Err(GameError::MonsterDead)
    );
    assert_eq!(player, before_player);
    assert_eq!(dead, before_monster);
}

#[test]
fn attack_fails_without_action_points_and_mutates_nothing() {
    let mut player = fresh_player(fresh_game(), 9, 0);
    player.action_points.balance = 99;
    let mut target = monster(0, 100, 100, true);
    let before_player = player.clone();
    let before_monster = target;
    assert_eq!(
        attack_monster(&mut player, &mut target),
        Err(GameError::InsufficientActionPoints)
    );
    assert_eq!(player, before_player);
    assert_eq!(target, before_monster);
}

#[test]
fn attack_fails_for_defeated_player() {
    let mut player = fresh_player(fresh_game(), 9, 0);
    player.action_points.balance = 500;
    player.hp = 0;
    let mut target = monster(0, 100, 100, true);
    assert_eq!(
        attack_monster(&mut player, &mut target),
        Err(GameError::PlayerDefeated)
    );
    assert_eq!(player.action_points.balance, 500);
    assert_eq!(target.hp, 100);
}

#[test]
fn attack_deals_level_based_damage_and_debits_cost() {
    let mut player = fresh_player(fresh_game(), 9, 0);
    player.action_points.balance = 250;
    player.level = 3;
    let mut target = monster(0, 100, 100, true);
    let result = attack_monster(&mut player, &mut target).unwrap();
    assert_eq!(result.damage, 10 + 5 * 3);
    assert!(!result.monster_defeated);
    assert!(!result.loot_granted);
    assert_eq!(target.hp, 75);
    assert!(target.alive);
    assert_eq!(player.action_points.balance, 150);
}

#[test]
fn killing_attack_grants_loot_when_space_remains() {
    let mut player = fresh_player(fresh_game(), 9, 0);
    player.action_points.balance = 100;
    let mut target = monster(4, 12, 100, true);
    let result = attack_monster(&mut player, &mut target).unwrap();
    assert!(result.monster_defeated);
    assert!(result.loot_granted);
    assert_eq!(target.hp, 0);
    assert!(!target.alive);
    assert_eq!(player.inventory.items, vec![4]);
}

#[test]
fn guarded_attack_rejects_stale_snapshot() {
    let mut player = fresh_player(fresh_game(), 9, 0);
    player.action_points.balance = 100;
    let mut stored = monster(0, 80, 100, true);
    let stale = monster(0, 100, 100, true);
    let before_player = player.clone();
    assert_eq!(
        attack_monster_guarded(&mut player, &mut stored, &stale),
        Err(GameError::ConcurrentModification)
    );
    assert_eq!(player, before_player);
    assert_eq!(stored.hp, 80);
}

#[test]
fn guarded_attack_applies_on_fresh_snapshot() {
    let mut player = fresh_player(fresh_game(), 9, 0);
    player.action_points.balance = 100;
    let mut stored = monster(0, 80, 100, true);
    let snapshot = stored;
    let result = attack_monster_guarded(&mut player, &mut stored, &snapshot).unwrap();
    assert_eq!(result.damage, 15);
    assert_eq!(stored.hp, 65);
    assert_eq!(player.action_points.balance, 0);
}

#[test]
fn inventory_grant_rejects_when_full() {
    let mut inv = Inventory::new(2);
    assert_eq!(inv.grant(7), Ok(()));
    assert_eq!(inv.grant(8), Ok(()));
    assert_eq!(inv.grant(9), Err(GameError::CapacityExceeded));
    assert_eq!(inv.items, vec![7, 8]);
}

#[test]
fn ledger_spend_needs_cover() {
    let mut ledger = ResourceLedger {
        balance: 10,
        last_collected_at: 0,
    };
    assert_eq!(ledger.spend(11), Err(GameError::InsufficientActionPoints));
    assert_eq!(ledger.balance, 10);
    assert_eq!(ledger.spend(10), Ok(()));
    assert_eq!(ledger.balance, 0);
}
