//! Gameplay logic of a small action game: fixed-point vector arithmetic,
//! health and combat resolution, and the behaviour state machines of the
//! player and of the flying enemy.
pub mod bat;
pub mod combat;
pub mod hitbox;
pub mod player;
pub mod player_detection_zone;
mod random;
pub mod stats;
pub mod vector;
