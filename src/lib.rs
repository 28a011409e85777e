//! Per-tick simulation core of a 2D side-scrolling platformer.
//!
//! One tick runs a fixed pipeline: input, gravity, integration,
//! auto-movement, platform collision, hazard collision, spawning and
//! despawning, camera. Each stage is a function in `systems` over the
//! records of `components` and `world`; `simulation::World::tick` runs them
//! in order over one simulation context.
//!
//! All quantities are integers in the fixed-point units of `units`:
//! micro-pixels and milliseconds. Arithmetic on positions and velocities
//! saturates at the range of `i64`.

pub mod components;
pub mod constants;
pub mod geometry;
pub mod resources;
pub mod sequences;
pub mod simulation;
pub mod systems;
pub mod units;
pub mod world;
