//! State engine for a small persistent multiplayer role-playing game.
//!
//! The crate tracks one shared game configuration, per-player progression and
//! spawned monster combat state. Five operations drive it: create game,
//! create player, spawn monster, attack monster, and deposit (collect) action
//! points. Each operation is a pure state transition with a verified
//! contract; the surrounding key/value store, identity checks and transport
//! live outside this crate and hand it plain values.

pub mod constants;
pub mod engine;
pub mod error;
pub mod laws;
pub mod state;

pub use constants::ATTACK_COST;
pub use constants::MAX_BALANCE;
pub use constants::PLAYER_BASE_HP;
pub use constants::PLAYER_BASE_LEVEL;
pub use constants::REGEN_RATE;
pub use engine::attack_monster;
pub use engine::attack_monster_guarded;
pub use engine::create_game;
pub use engine::create_player;
pub use engine::deposit_action_points;
pub use engine::spawn_monster;
pub use engine::AttackResult;
pub use error::GameError;
pub use state::GameConfig;
pub use state::Inventory;
pub use state::MonsterAccount;
pub use state::PlayerAccount;
pub use state::ResourceLedger;
