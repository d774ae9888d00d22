//! Core logic of a small tile-based 2D platformer: the game-state machine,
//! the world with its player and tile maps, per-frame physics with tile
//! collision, and the list of draw commands that a renderer executes.
pub mod draw;
pub mod game;
pub mod geom;
pub mod laws;
pub mod player;
pub mod world;

pub use draw::{CameraKind, DrawCmd, TextLabel};
pub use game::{Game, GameState};
pub use player::{FrameInput, Player};
pub use world::{Camera, Level, Tile, TileMap, World};
