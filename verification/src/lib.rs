//! Runtime core of a 2D tile-based game: dense-handle component registries,
//! an axis-aligned bounding-box collision engine with exact integer
//! penetration resolution, and a scene/entity synchronization protocol that
//! spawns and despawns game objects in lockstep with the active map.
//!
//! World geometry is measured in integer coordinate units so that every
//! collision result is exact; rendering, input polling, asset loading and
//! map-file parsing are external collaborators that exchange plain values
//! with this crate.

pub mod collider;
pub mod game_logic;
pub mod game_manager;
pub mod geom;
pub mod log;
pub mod player;
pub mod scene;
pub mod selector_box;
pub mod sprite;
pub mod summoning_circle;
pub mod tile;
pub mod wall;

pub use geom::{Recti, Vec2i, COORD_LIMIT};
