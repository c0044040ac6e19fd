//! Game rules of a small top-down arena shooter: movement, attacks,
//! projectiles, collisions, enemy spawners and the player's health, all on
//! fixed-point integer coordinates.
pub mod geometry;
pub mod timer;
pub mod projectile;
pub mod attacks;
pub mod collision;
pub mod ui;
pub mod gameplay;
pub mod level;
