//! Input, gravity, integration and landing on platforms.

use vstd::prelude::*;

use crate::components::{BoxCollider, Gravity, Grounded, JumpConfig, Speed, Transform, Velocity};
use crate::constants::LANDING_THRESHOLD;
use crate::geometry::{Vec2, clamp_i64, fits_i64, floor_div, saturate, times};
use crate::units::PER_MILLE;
use crate::world::PlatformBody;

verus! {

/// The state of the logical inputs in one tick: which movement keys are
/// held, and whether the jump input went down or up this tick.
#[derive(Clone, Copy, Debug, PartialEq, Eq, Structural, Default)]
pub struct InputState {
    pub left: bool,
    pub right: bool,
    pub jump_pressed: bool,
    pub jump_released: bool,
}

/// Net horizontal direction of the held keys: -1, 0 or 1.
pub open spec fn move_direction(input: InputState) -> int {
    (if input.right { 1int } else { 0int }) - (if input.left { 1int } else { 0int })
}

/// Sets the horizontal velocity from the held movement keys and the speed;
/// holding both directions cancels out.
pub fn player_movement(input: &InputState, speed: &Speed, velocity: &mut Velocity)
    ensures
        final(velocity).0.x == clamp_i64(move_direction(*input) * speed.0),
        final(velocity).0.y == old(velocity).0.y,
{
    let mut direction: i64 = 0;
    if input.left {
        direction = direction - 1;
    }
    if input.right {
        direction = direction + 1;
    }
    assert(direction == move_direction(*input));
    let vx: i128 = if direction < 0 {
        -(speed.0 as i128)
    } else if direction > 0 {
        speed.0 as i128
    } else {
        0
    };
    assert(vx == direction * speed.0) by (nonlinear_arith)
        requires
            direction == -1 ==> vx == -speed.0,
            direction == 1 ==> vx == speed.0,
            direction == 0 ==> vx == 0,
            -1 <= direction <= 1,
    ;
    velocity.0.x = saturate(vx);
}

/// Vertical velocity after the jump input: a press while grounded sets the
/// jump velocity; a release while still rising scales the velocity by the
/// jump-cut multiplier (in thousandths, rounded down).
pub open spec fn jumped_velocity_y(
    input: InputState,
    grounded: Grounded,
    config: JumpConfig,
    vy: int,
) -> int {
    let v = if input.jump_pressed && grounded.0 { config.jump_velocity as int } else { vy };
    if input.jump_released && v > 0 {
        v * config.jump_cut_multiplier / (PER_MILLE as int)
    } else {
        v
    }
}

/// Applies the jump input to the vertical velocity.
pub fn player_jump(
    input: &InputState,
    grounded: &Grounded,
    config: &JumpConfig,
    velocity: &mut Velocity,
)
    ensures
        final(velocity).0.y == clamp_i64(jumped_velocity_y(
            *input,
            *grounded,
            *config,
            old(velocity).0.y as int,
        )),
        final(velocity).0.x == old(velocity).0.x,
{
    if input.jump_pressed && grounded.0 {
        velocity.0.y = config.jump_velocity;
    }
    if input.jump_released && velocity.0.y > 0 {
        let vy = velocity.0.y as i128;
        let m = config.jump_cut_multiplier as i128;
        assert(0 <= vy * m <= 0x1_0000_0000_0000_0000_0000_0000) by (nonlinear_arith)
            requires
                0 < vy < 0x8000_0000_0000_0000,
                0 <= m < 0x1_0000_0000,
        ;
        velocity.0.y = saturate(vy * m / PER_MILLE as i128);
    }
}

/// Pulls an airborne entity down: its vertical velocity loses
/// `gravity * dt`. A grounded entity is left alone.
pub fn apply_gravity(dt: u32, gravity: &Gravity, grounded: &Grounded, velocity: &mut Velocity)
    ensures
        final(velocity).0.y == if grounded.0 {
            old(velocity).0.y
        } else {
            clamp_i64(old(velocity).0.y - gravity.0 * dt)
        },
        final(velocity).0.x == old(velocity).0.x,
{
    if !grounded.0 {
        let vy = velocity.0.y as i128 - times(gravity.0, dt);
        velocity.0.y = saturate(vy);
    }
}

/// Moves an entity by its velocity over `dt`, each axis on its own.
pub fn apply_velocity(dt: u32, velocity: &Velocity, transform: &mut Transform)
    ensures
        final(transform).translation.x == clamp_i64(
            old(transform).translation.x + velocity.0.x * dt,
        ),
        final(transform).translation.y == clamp_i64(
            old(transform).translation.y + velocity.0.y * dt,
        ),
{
    let x = transform.translation.x as i128 + times(velocity.0.x, dt);
    let y = transform.translation.y as i128 + times(velocity.0.y, dt);
    transform.translation.x = saturate(x);
    transform.translation.y = saturate(y);
}

/// The actor's box and the platform's box overlap horizontally.
pub open spec fn overlaps_horizontally(
    a: BoxCollider,
    at: Transform,
    b: BoxCollider,
    bt: Transform,
) -> bool {
    a.left(at) < b.right(bt) && a.right(at) > b.left(bt)
}

/// The actor, falling or at rest, has its bottom edge within the landing
/// band of `p` and its top edge above the platform's top.
pub open spec fn lands_on(t: Transform, v: Velocity, c: BoxCollider, p: PlatformBody) -> bool {
    let top = p.collider.top(p.transform);
    &&& overlaps_horizontally(c, t, p.collider, p.transform)
    &&& v.0.y <= 0
    &&& top - LANDING_THRESHOLD <= c.bottom(t) <= top
    &&& c.top(t) > top
}

/// The vertical coordinate at which an actor of box `c` stands on `p`.
pub open spec fn landing_y(c: BoxCollider, p: PlatformBody) -> int {
    p.collider.top(p.transform) + c.half_height()
}

/// Index of the first platform of `ps` that the actor lands on, from `i` on.
pub open spec fn first_landing_from(
    t: Transform,
    v: Velocity,
    c: BoxCollider,
    ps: Seq<PlatformBody>,
    i: int,
) -> bool {
    0 <= i < ps.len() && lands_on(t, v, c, ps[i]) && forall|j: int|
        0 <= j < i ==> !#[trigger] lands_on(t, v, c, ps[j])
}

/// At most one platform is the first one landed on.
pub proof fn lemma_first_landing_unique(
    t: Transform,
    v: Velocity,
    c: BoxCollider,
    ps: Seq<PlatformBody>,
    i: int,
    j: int,
)
    requires
        first_landing_from(t, v, c, ps, i),
        first_landing_from(t, v, c, ps, j),
    ensures
        i == j,
{
    if i < j {
        assert(!lands_on(t, v, c, ps[i]));
    } else if j < i {
        assert(!lands_on(t, v, c, ps[j]));
    }
}

/// Where the actor lands on some platform, one of those is the first.
pub proof fn lemma_first_landing_exists(
    t: Transform,
    v: Velocity,
    c: BoxCollider,
    ps: Seq<PlatformBody>,
    i: int,
)
    requires
        0 <= i < ps.len(),
        lands_on(t, v, c, ps[i]),
    ensures
        exists|j: int| 0 <= j <= i && #[trigger] first_landing_from(t, v, c, ps, j),
    decreases i,
{
    if forall|j: int| 0 <= j < i ==> !#[trigger] lands_on(t, v, c, ps[j]) {
        assert(first_landing_from(t, v, c, ps, i));
    } else {
        let j = choose|j: int| 0 <= j < i && #[trigger] lands_on(t, v, c, ps[j]);
        lemma_first_landing_exists(t, v, c, ps, j);
    }
}

/// Transform, velocity and grounding of the actor after landing resolution:
/// on the first platform it lands on, its bottom edge rests on the
/// platform's top and its vertical velocity is zero; on none, it is
/// unchanged and not grounded.
pub open spec fn landing_outcome(
    t: Transform,
    v: Velocity,
    c: BoxCollider,
    ps: Seq<PlatformBody>,
) -> (Transform, Velocity, Grounded) {
    if exists|i: int| first_landing_from(t, v, c, ps, i) {
        let i = choose|i: int| first_landing_from(t, v, c, ps, i);
        (
            Transform { translation: Vec2 { x: t.translation.x, y: clamp_i64(landing_y(c, ps[i])) } },
            Velocity(Vec2 { x: v.0.x, y: 0 }),
            Grounded(true),
        )
    } else {
        (t, v, Grounded(false))
    }
}

/// An actor falling into a platform's landing band is, after resolution,
/// grounded, at rest vertically, and stands with its bottom edge on the top
/// of a platform it landed on: that platform, or an earlier one. (Standing
/// positions are taken to lie within `i64`.)
pub proof fn lemma_falling_actor_lands(
    t: Transform,
    v: Velocity,
    c: BoxCollider,
    ps: Seq<PlatformBody>,
    i: int,
)
    requires
        0 <= i < ps.len(),
        lands_on(t, v, c, ps[i]),
        forall|k: int| 0 <= k < ps.len() ==> fits_i64(#[trigger] landing_y(c, ps[k])),
    ensures
        ({
            let (t2, v2, g2) = landing_outcome(t, v, c, ps);
            &&& g2.0
            &&& v2.0.y == 0
            &&& exists|j: int|
                0 <= j <= i && lands_on(t, v, c, ps[j]) && c.bottom(t2) == #[trigger] ps[j].collider.top(
                    ps[j].transform,
                )
        }),
{
    lemma_first_landing_exists(t, v, c, ps, i);
    let j = choose|j: int| 0 <= j <= i && #[trigger] first_landing_from(t, v, c, ps, j);
    let k = choose|k: int| first_landing_from(t, v, c, ps, k);
    lemma_first_landing_unique(t, v, c, ps, j, k);
    let (t2, v2, g2) = landing_outcome(t, v, c, ps);
    assert(c.bottom(t2) == ps[j].collider.top(ps[j].transform));
}

/// Half of a length, rounded down.
fn half(length: i64) -> (r: i128)
    ensures
        r == length / 2,
{
    floor_div(length as i128, 2)
}

/// Whether the actor lands on platform `p`, computed exactly.
fn check_landing(t: &Transform, v: &Velocity, c: &BoxCollider, p: &PlatformBody) -> (r: bool)
    ensures
        r == lands_on(*t, *v, *c, *p),
{
    let ahw = half(c.width);
    let ahh = half(c.height);
    let phw = half(p.collider.width);
    let phh = half(p.collider.height);
    let left = t.translation.x as i128 - ahw;
    let right = t.translation.x as i128 + ahw;
    let bottom = t.translation.y as i128 - ahh;
    let top = t.translation.y as i128 + ahh;
    let p_left = p.transform.translation.x as i128 - phw;
    let p_right = p.transform.translation.x as i128 + phw;
    let p_top = p.transform.translation.y as i128 + phh;
    left < p_right && right > p_left && v.0.y <= 0 && p_top - LANDING_THRESHOLD as i128 <= bottom
        && bottom <= p_top && top > p_top
}

/// Lands the actor on the first platform it falls onto this tick: its
/// bottom edge is snapped to the platform's top, its vertical velocity is
/// zeroed and it is marked grounded. When it lands on none it is marked not
/// grounded and otherwise left as it was.
pub fn check_platform_collisions(
    transform: &mut Transform,
    velocity: &mut Velocity,
    collider: &BoxCollider,
    grounded: &mut Grounded,
    platforms: &Vec<PlatformBody>,
)
    ensures
        final(grounded).0 == exists|i: int|
            0 <= i < platforms.len() && #[trigger] lands_on(*old(transform), *old(velocity), *collider, platforms[i]),
        final(grounded).0 ==> exists|i: int|
            #[trigger] first_landing_from(*old(transform), *old(velocity), *collider, platforms@, i)
                && final(transform).translation.y == clamp_i64(landing_y(*collider, platforms[i])),
        final(grounded).0 ==> final(velocity).0.y == 0,
        !final(grounded).0 ==> *final(transform) == *old(transform) && *final(velocity) == *old(velocity),
        final(transform).translation.x == old(transform).translation.x,
        final(velocity).0.x == old(velocity).0.x,
        (*final(transform), *final(velocity), *final(grounded)) == landing_outcome(
            *old(transform),
            *old(velocity),
            *collider,
            platforms@,
        ),
{
    let t0 = *transform;
    let v0 = *velocity;
    let n = platforms.len();
    let mut i: usize = 0;
    while i < n
        invariant_except_break
            i <= n,
            n == platforms.len(),
            *transform == t0,
            *velocity == v0,
            forall|j: int| 0 <= j < i ==> !#[trigger] lands_on(t0, v0, *collider, platforms[j]),
        ensures
            i <= n,
            n == platforms.len(),
            i < n ==> first_landing_from(t0, v0, *collider, platforms@, i as int),
            i == n ==> *transform == t0 && *velocity == v0,
            forall|j: int| 0 <= j < i ==> !#[trigger] lands_on(t0, v0, *collider, platforms[j]),
        decreases n - i,
    {
        if check_landing(&t0, &v0, collider, &platforms[i]) {
            break;
        }
        i = i + 1;
    }
    if i < n {
        let p = &platforms[i];
        let y = p.transform.translation.y as i128 + half(p.collider.height) + half(collider.height);
        transform.translation.y = saturate(y);
        velocity.0.y = 0;
        grounded.0 = true;
        proof {
            let k = choose|k: int| first_landing_from(t0, v0, *collider, platforms@, k);
            lemma_first_landing_unique(t0, v0, *collider, platforms@, i as int, k);
        }
    } else {
        grounded.0 = false;
        proof {
            if exists|k: int| first_landing_from(t0, v0, *collider, platforms@, k) {
                let k = choose|k: int| first_landing_from(t0, v0, *collider, platforms@, k);
                assert(!lands_on(t0, v0, *collider, platforms[k]));
            }
        }
    }
}

} // verus!
