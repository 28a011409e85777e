//! The stages of a simulation tick.

pub mod auto_movement;
pub mod camera;
pub mod collision;
pub mod movement;
pub mod obstacle;
pub mod setup;
pub mod ui;
