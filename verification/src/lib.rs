//! Simulation core of a side-scrolling platformer: fixed-point movement,
//! tile collision, the wizard and hat state machine, enemies and the camera.

pub mod enemies;
pub mod entity;
pub mod level;
pub mod level_display;
pub mod number;
pub mod player;
pub mod playing_level;
pub mod sfx;
pub mod splash_screen;
pub mod vector;
