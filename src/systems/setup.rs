//! The level as it stands at the start: camera, actor and platforms.

use vstd::prelude::*;

use crate::components::{
    BoxCollider, Entity, Gravity, Grounded, Health, JumpConfig, Speed, Transform, Velocity,
};
use crate::geometry::Vec2;
use crate::units::{PER_MILLE, PIXEL, PIXEL_PER_SECOND};
use crate::world::{Actor, Camera, PlatformBody};

verus! {

/// A camera at the origin, following nothing yet.
pub fn setup_camera() -> (r: Camera)
    ensures
        r.transform.translation == Vec2::spec_zero(),
        r.follow.is_none(),
{
    Camera { transform: Transform::from_xy(0, 0), follow: None }
}

/// The actor as the level starts: 40 by 50 pixels at (0, 100), at rest and
/// airborne, with full default health, a speed of 250 pixels per second and
/// default gravity and jump.
pub fn spawn_player(id: Entity) -> (r: Actor)
    ensures
        r.id == id,
        r.transform.translation == (Vec2 { x: 0, y: (100 * PIXEL) as i64 }),
        r.velocity.0 == Vec2::spec_zero(),
        r.collider == (BoxCollider { width: (40 * PIXEL) as i64, height: (50 * PIXEL) as i64 }),
        !r.grounded.0,
        r.health == (Health { current: 100, max: 100 }),
        r.speed.0 == 250 * PIXEL_PER_SECOND,
        r.gravity.0 == 980,
        r.jump == (JumpConfig {
            jump_velocity: (450 * PIXEL_PER_SECOND) as i64,
            jump_cut_multiplier: (PER_MILLE / 2) as u32,
        }),
{
    Actor {
        id,
        transform: Transform::from_xy(0, 100 * PIXEL),
        velocity: Velocity(Vec2::zero()),
        collider: BoxCollider::new(40 * PIXEL, 50 * PIXEL),
        grounded: Grounded(false),
        health: Health::default(),
        speed: Speed(250 * PIXEL_PER_SECOND),
        gravity: Gravity::default(),
        jump: JumpConfig::default(),
    }
}

/// A platform of the given size, in pixels, centred at the given point.
pub open spec fn platform_at(x: int, y: int, width: int, height: int) -> PlatformBody {
    PlatformBody {
        transform: Transform { translation: Vec2 { x: (x * PIXEL) as i64, y: (y * PIXEL) as i64 } },
        collider: BoxCollider { width: (width * PIXEL) as i64, height: (height * PIXEL) as i64 },
    }
}

/// The level's platforms: the ground, then two lower, one middle and two
/// upper floating platforms.
pub open spec fn level_platforms() -> Seq<PlatformBody> {
    seq![
        platform_at(0, -250, 800, 40),
        platform_at(-200, -100, 150, 20),
        platform_at(150, -50, 120, 20),
        platform_at(-50, 50, 180, 20),
        platform_at(250, 120, 100, 20),
        platform_at(-250, 150, 100, 20),
    ]
}

fn make_platform(x: i64, y: i64, width: i64, height: i64) -> (r: PlatformBody)
    requires
        -1000 <= x <= 1000,
        -1000 <= y <= 1000,
        0 <= width <= 1000,
        0 <= height <= 1000,
    ensures
        r == platform_at(x as int, y as int, width as int, height as int),
{
    PlatformBody {
        transform: Transform::from_xy(x * PIXEL, y * PIXEL),
        collider: BoxCollider::new(width * PIXEL, height * PIXEL),
    }
}

/// The platforms of the level, ground first.
pub fn spawn_platforms() -> (r: Vec<PlatformBody>)
    ensures
        r@ == level_platforms(),
{
    let mut r: Vec<PlatformBody> = Vec::new();
    r.push(make_platform(0, -250, 800, 40));
    r.push(make_platform(-200, -100, 150, 20));
    r.push(make_platform(150, -50, 120, 20));
    r.push(make_platform(-50, 50, 180, 20));
    r.push(make_platform(250, 120, 100, 20));
    r.push(make_platform(-250, 150, 100, 20));
    assert(r@ =~= level_platforms());
    r
}

} // verus!
