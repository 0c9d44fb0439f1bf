//! A small terminal mining game: a ship moves on a bounded grid, avoids
//! asteroids, mines resource nodes and burns fuel. This crate holds the game's
//! rules; drawing to a terminal and reading keys happen outside it.

pub mod input;
pub mod laws;
pub mod model;
pub mod render;
pub mod session;
pub mod spawner;
pub mod systems;

pub use model::{Asteroid, Cargo, Grid, Rect, Resource, ResourceNode, Ship, Upgrade};
pub use model::{FUEL_MAX, GRID_H, GRID_W};
pub use input::InputEvent;
pub use systems::{check_collision, collision_system, mining_system, physics_system};
pub use systems::{CRYSTAL_REFUEL, FUEL_DECAY};
pub use spawner::{difficulty_system, random_cell, spawn_system};
pub use spawner::{MIN_SPAWN_RATE, RAMP_PERIOD, RAMP_STEP, START_SPAWN_RATE};
pub use render::{render, Frame, GAUGE_SEGMENTS};
pub use session::{FrameOutcome, Session, MINE_REWARD};
pub use laws::{lemma_mining_twice, lemma_move_stays_on_field, lemma_moves_stay_on_field};
pub use laws::{lemma_frame_follows_schedule, lemma_spawn_rate_schedule};
