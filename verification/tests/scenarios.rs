use rpg_engine::engine::attack_monster;
use rpg_engine::engine::create_game;
use rpg_engine::engine::create_player;
use rpg_engine::engine::deposit_action_points;
use rpg_engine::engine::spawn_monster;
use rpg_engine::error::GameError;
use rpg_engine::state::MonsterAccount;

#[test]
fn full_session_from_creation_to_first_attack() {
    // Create the game, then a player, spawn the first monster, collect
    // exactly one attack's worth of action points, and attack.
    let cfg = create_game(None, 1, 3).unwrap();
    let (cfg, mut player) = create_player(Some(cfg), None, 9, 1000).unwrap();
    let (_cfg, mut mon) = spawn_monster(Some(cfg)).unwrap();
    assert_eq!(mon.id, 0);
    let initial_hp = mon.hp;
    assert_eq!(initial_hp, 100);

    // One regeneration period of 10 time units at 10 points per unit yields
    // exactly the attack cost of 100.
    let accrued = deposit_action_points(&mut player, 1010);
    assert_eq!(accrued, 100);
    assert_eq!(player.action_points.balance, 100);

    let result = attack_monster(&mut player, &mut mon).unwrap();
    assert_eq!(result.damage, 15);
    assert_eq!(mon.hp, initial_hp - 15);
    assert_eq!(player.action_points.balance, 0);
}

#[test]
fn two_spawns_never_share_an_id() {
    let cfg = create_game(None, 1, 3).unwrap();
    let (cfg, first) = spawn_monster(Some(cfg)).unwrap();
    let (_, second) = spawn_monster(Some(cfg)).unwrap();
    assert_eq!(first.id, 0);
    assert_eq!(second.id, 1);
    assert_ne!(first.id, second.id);
    // The difficulty curve never falls as the sequence grows.
    assert!(second.hp >= first.hp);
    assert!(second.level >= first.level);
}

#[test]
fn attacking_a_dead_monster_is_rejected_without_mutation() {
    let cfg = create_game(None, 1, 3).unwrap();
    let (_, mut player) = create_player(Some(cfg), None, 9, 0).unwrap();
    player.action_points.balance = 300;
    let mut dead = MonsterAccount {
        id: 0,
        hp: 0,
        max_hp: 100,
        level: 1,
        loot_table: 0,
        alive: false,
    };
    let before_player = player.clone();
    let before_monster = dead;
    assert_eq!(
        attack_monster(&mut player, &mut dead),
        Err(GameError::MonsterDead)
    );
    assert_eq!(player, before_player);
    assert_eq!(dead, before_monster);
}

#[test]
fn killing_attack_with_full_inventory_drops_loot_but_still_kills() {
    let cfg = create_game(None, 1, 2).unwrap();
    let (_, mut player) = create_player(Some(cfg), None, 9, 0).unwrap();
    player.action_points.balance = 100;
    player.inventory.grant(50).unwrap();
    player.inventory.grant(51).unwrap();
    assert!(player.inventory.is_full());
    let inventory_before = player.inventory.clone();

    let mut mon = MonsterAccount {
        id: 3,
        hp: 10,
        max_hp: 100,
        level: 1,
        loot_table: 3,
        alive: true,
    };
    let result = attack_monster(&mut player, &mut mon).unwrap();
    assert!(result.monster_defeated);
    assert!(!result.loot_granted);
    assert!(!mon.alive);
    assert_eq!(mon.hp, 0);
    assert_eq!(player.inventory, inventory_before);
    assert_eq!(player.action_points.balance, 0);
}

#[test]
fn inventory_stays_within_capacity_across_operations() {
    // Kill enough monsters to more than fill the inventory: every grant past
    // the capacity of 2 is dropped, never an error, and the bound holds
    // throughout.
    let cfg = create_game(None, 1, 2).unwrap();
    let (_, mut player) = create_player(Some(cfg), None, 9, 0).unwrap();
    for round in 0..4 {
        deposit_action_points(&mut player, (round + 1) * 10);
        let mut mon = MonsterAccount {
            id: round,
            hp: 1,
            max_hp: 100,
            level: 1,
            loot_table: round,
            alive: true,
        };
        let result = attack_monster(&mut player, &mut mon).unwrap();
        assert!(result.monster_defeated);
        assert!(player.inventory.items.len() <= 2);
    }
    assert_eq!(player.inventory.items, vec![0, 1]);
}
