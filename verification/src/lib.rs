//! An arcade shooter simulation: a player ship, spawning enemy ships, their
//! projectiles and a falling starfield, advanced one discrete tick at a time.
//!
//! Coordinates, sizes and viewport dimensions are whole game units; rates are
//! counted in thousandths. A game is driven by calling `Game::next_turn` once
//! per frame, reading `Game::space_objects` and `Game::texts` to draw it, and
//! forwarding input to `Game::move_player`, `Game::fire_player_attack` and
//! `Game::key_pressed`.

pub mod chance;
pub mod clock;
pub mod enemy;
pub mod game;
pub mod game_objects;
pub mod hero;
pub mod laws;
pub mod player;
pub mod scene;
pub mod seq_facts;
pub mod shot;
pub mod spaceship;
pub mod stars;
pub mod text;

pub use crate::enemy::{Enemy, EnemyMove};
pub use crate::game::{Game, Turn};
pub use crate::game_objects::{
    Color, Coord, Direction, FontSize, GameText, ObjectKind, Position, ScreenSize, SpaceObject,
};
pub use crate::hero::Hero;
pub use crate::player::{hits, Player};
pub use crate::scene::{GameScore, Scene};
pub use crate::shot::Shot;
pub use crate::spaceship::Spaceship;
pub use crate::stars::Star;
