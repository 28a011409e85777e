//! A camera that follows its target with frame-rate independent smoothing.

use vstd::prelude::*;

use crate::components::{CameraFollow, Entity, Transform};
use crate::geometry::{Vec2, clamp_i64, floor_div, saturate};
use crate::units::PIXEL;
use crate::world::Camera;

verus! {

/// The value that stands for 1.0 in a lerp factor, which is given in
/// millionths.
pub const LERP_ONE: u32 = 1_000_000;

/// Linear interpolation from `a` towards `b` by `factor` millionths,
/// rounded down.
pub open spec fn lerp(a: int, b: int, factor: int) -> int {
    a + (b - a) * factor / (LERP_ONE as int)
}

/// Interpolation stays between its two ends.
pub proof fn lemma_lerp_between(a: int, b: int, factor: int)
    requires
        0 <= factor <= LERP_ONE,
    ensures
        a <= b ==> a <= lerp(a, b, factor) <= b,
        b <= a ==> b <= lerp(a, b, factor) <= a,
{
    let n = LERP_ONE as int;
    if a <= b {
        assert(0 <= (b - a) * factor / n <= b - a) by (nonlinear_arith)
            requires
                a <= b,
                0 <= factor <= n,
                n == 1_000_000,
        ;
    } else {
        assert(b - a <= (b - a) * factor / n <= 0) by (nonlinear_arith)
            requires
                b < a,
                0 <= factor <= n,
                n == 1_000_000,
        ;
    }
}

/// One axis of the interpolation, computed exactly.
fn lerp_axis(a: i64, b: i64, factor: u32) -> (r: i64)
    requires
        factor <= LERP_ONE,
    ensures
        r == lerp(a as int, b as int, factor as int),
{
    proof {
        lemma_lerp_between(a as int, b as int, factor as int);
    }
    let d = b as i128 - a as i128;
    assert(-0x1_0000_0000_0000_0000_0000_0000 <= d * factor <= 0x1_0000_0000_0000_0000_0000_0000) by (nonlinear_arith)
        requires
            -0x1_0000_0000_0000_0000 <= d <= 0x1_0000_0000_0000_0000,
            0 <= factor <= 1_000_000,
    ;
    let step = floor_div(d * factor as i128, LERP_ONE as i128);
    (a as i128 + step) as i64
}

/// Where the camera aims: the target's position plus the offset.
pub open spec fn aim(target: Transform, follow: CameraFollow) -> (i64, i64) {
    (
        clamp_i64(target.translation.x + follow.offset.x),
        clamp_i64(target.translation.y + follow.offset.y),
    )
}

/// The camera after one follow step towards `target` by `factor`: each axis
/// moves by `factor` millionths of its distance to the aim point. It stays
/// where it is without a follow configuration, a target set, or the
/// target's transform.
pub open spec fn followed(camera: Camera, target: Option<Transform>, factor: u32) -> Camera {
    match (camera.follow, target) {
        (Some(follow), Some(t)) => {
            if follow.target.is_some() {
                let (ax, ay) = aim(t, follow);
                let x = lerp(camera.transform.translation.x as int, ax as int, factor as int);
                let y = lerp(camera.transform.translation.y as int, ay as int, factor as int);
                Camera { transform: Transform { translation: Vec2 { x: x as i64, y: y as i64 } }, ..camera }
            } else {
                camera
            }
        },
        _ => camera,
    }
}

/// Moves the camera towards its target's position plus the offset, each
/// axis by `factor` millionths of the remaining distance, where `factor` is
/// `1 - smoothing^(dt * TARGET_FRAMERATE)`. With no follow configuration, no
/// target set, or the target's transform absent (`None`), the camera stays.
pub fn camera_follow_system(target: Option<Transform>, camera: &mut Camera, factor: u32)
    requires
        factor <= LERP_ONE,
    ensures
        *final(camera) == followed(*old(camera), target, factor),
{
    match (camera.follow, target) {
        (Some(follow), Some(t)) => {
            if follow.target.is_some() {
                let ax = saturate(t.translation.x as i128 + follow.offset.x as i128);
                let ay = saturate(t.translation.y as i128 + follow.offset.y as i128);
                let x = lerp_axis(camera.transform.translation.x, ax, factor);
                let y = lerp_axis(camera.transform.translation.y, ay, factor);
                camera.transform.translation = Vec2 { x, y };
            }
        },
        _ => {},
    }
}

/// A camera that already stands at its aim point stays there when it
/// follows again, whatever the factor.
pub proof fn lemma_follow_at_rest(camera: Camera, t: Transform, factor: u32)
    requires
        camera.follow.is_some(),
        ({
            let (ax, ay) = aim(t, camera.follow.unwrap());
            camera.transform.translation.x == ax && camera.transform.translation.y == ay
        }),
    ensures
        followed(camera, Some(t), factor) == camera,
{
    let follow = camera.follow.unwrap();
    let (ax, ay) = aim(t, follow);
    assert(lerp(ax as int, ax as int, factor as int) == ax);
    assert(lerp(ay as int, ay as int, factor as int) == ay);
}

/// Makes the camera follow `target`, fifty pixels above it, with a
/// smoothing of five hundredths.
pub fn setup_camera_follow(camera: &mut Camera, target: Entity)
    ensures
        final(camera).transform == old(camera).transform,
        final(camera).follow == Some(
            CameraFollow { target: Some(target), offset: Vec2 { x: 0, y: (50 * PIXEL) as i64 }, smoothing: 50 },
        ),
{
    let follow = CameraFollow::new(target).with_offset(Vec2::new(0, 50 * PIXEL)).with_smoothing(50);
    camera.follow = Some(follow);
}

} // verus!
