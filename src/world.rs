//! The records of the entities that the simulation moves, and the
//! configuration of the playfield.

use vstd::prelude::*;

use crate::components::{
    AutoMove, BoxCollider, CameraFollow, DamageOnContact, Entity, Gravity, Grounded, Health,
    JumpConfig, Speed, Transform, Velocity,
};
use crate::constants::{
    DESPAWN_X, HEIGHT_MAX, HEIGHT_MIN, SPAWN_X, SPAWN_Y_MAX, SPAWN_Y_MIN, SPEED_MAX, SPEED_MIN,
    WIDTH_MAX, WIDTH_MIN,
};

verus! {

/// The player-controlled actor.
#[derive(Clone, Copy, Debug, PartialEq, Eq, Structural)]
pub struct Actor {
    pub id: Entity,
    pub transform: Transform,
    pub velocity: Velocity,
    pub collider: BoxCollider,
    pub grounded: Grounded,
    pub health: Health,
    pub speed: Speed,
    pub gravity: Gravity,
    pub jump: JumpConfig,
}

/// A static one-way platform.
#[derive(Clone, Copy, Debug, PartialEq, Eq, Structural)]
pub struct PlatformBody {
    pub transform: Transform,
    pub collider: BoxCollider,
}

/// A moving obstacle that damages the actor on contact.
#[derive(Clone, Copy, Debug, PartialEq, Eq, Structural)]
pub struct Hazard {
    pub id: Entity,
    pub transform: Transform,
    pub collider: BoxCollider,
    pub damage: DamageOnContact,
    pub auto_move: AutoMove,
}

/// The camera, and how it follows its target once that is set.
#[derive(Clone, Copy, Debug, PartialEq, Eq, Structural)]
pub struct Camera {
    pub transform: Transform,
    pub follow: Option<CameraFollow>,
}

/// Where hazards appear, the ranges of their random attributes, and where
/// they are removed.
#[derive(Clone, Copy, Debug, PartialEq, Eq, Structural)]
pub struct Playfield {
    pub spawn_x: i64,
    pub spawn_y_min: i64,
    pub spawn_y_max: i64,
    pub width_min: i64,
    pub width_max: i64,
    pub height_min: i64,
    pub height_max: i64,
    pub speed_min: i64,
    pub speed_max: i64,
    pub despawn_x: i64,
}

impl Playfield {
    /// Each range is non-empty.
    pub open spec fn wf(self) -> bool {
        &&& self.spawn_y_min <= self.spawn_y_max
        &&& self.width_min <= self.width_max
        &&& self.height_min <= self.height_max
        &&& self.speed_min <= self.speed_max
    }
}

impl Default for Playfield {
    fn default() -> (r: Playfield)
        ensures
            r.wf(),
            r.spawn_x == SPAWN_X,
            r.spawn_y_min == SPAWN_Y_MIN,
            r.spawn_y_max == SPAWN_Y_MAX,
            r.width_min == WIDTH_MIN,
            r.width_max == WIDTH_MAX,
            r.height_min == HEIGHT_MIN,
            r.height_max == HEIGHT_MAX,
            r.speed_min == SPEED_MIN,
            r.speed_max == SPEED_MAX,
            r.despawn_x == DESPAWN_X,
    {
        Playfield {
            spawn_x: SPAWN_X,
            spawn_y_min: SPAWN_Y_MIN,
            spawn_y_max: SPAWN_Y_MAX,
            width_min: WIDTH_MIN,
            width_max: WIDTH_MAX,
            height_min: HEIGHT_MIN,
            height_max: HEIGHT_MAX,
            speed_min: SPEED_MIN,
            speed_max: SPEED_MAX,
            despawn_x: DESPAWN_X,
        }
    }
}

} // verus!
