//! The attribute records that entities of the simulation carry.

use vstd::prelude::*;

use crate::constants::{MAX_SMOOTHING, MIN_SMOOTHING};
use crate::geometry::{Vec2, floor_div, is_sqrt_floor, isqrt, lemma_sqrt_floor_unique, sqrt_floor};
use crate::units::{PER_MILLE, PIXEL, PIXEL_PER_SECOND, PIXEL_PER_SECOND_SQUARED};

verus! {

/// A stable identifier of an entity.
#[derive(Clone, Copy, Debug, PartialEq, Eq, Structural, Hash)]
pub struct Entity(pub u64);

/// Where an entity stands.
#[derive(Clone, Copy, Debug, PartialEq, Eq, Structural, Default)]
pub struct Transform {
    pub translation: Vec2,
}

impl Transform {
    pub fn from_xy(x: i64, y: i64) -> (r: Transform)
        ensures
            r.translation.x == x,
            r.translation.y == y,
    {
        Transform { translation: Vec2 { x, y } }
    }
}

/// Horizontal movement speed.
#[derive(Clone, Copy, Debug, PartialEq, Eq, Structural)]
pub struct Speed(pub i64);

impl Default for Speed {
    fn default() -> (r: Speed)
        ensures
            r.0 == 200 * PIXEL_PER_SECOND,
    {
        Speed(200 * PIXEL_PER_SECOND)
    }
}

/// Hit points, kept within `0..=max`.
#[derive(Clone, Copy, Debug, PartialEq, Eq, Structural)]
pub struct Health {
    pub current: u32,
    pub max: u32,
}

impl Default for Health {
    fn default() -> (r: Health)
        ensures
            r.current == 100,
            r.max == 100,
    {
        Health { current: 100, max: 100 }
    }
}

impl Health {
    /// Current health lies within `0..=max`, and `max` is positive.
    pub open spec fn wf(self) -> bool {
        0 < self.max && self.current <= self.max
    }

    pub fn new(max: u32) -> (r: Health)
        requires
            max > 0,
        ensures
            r.current == max,
            r.max == max,
            r.wf(),
    {
        Health { current: max, max }
    }

    /// Takes `amount` off the current health, stopping at zero.
    pub fn take_damage(&mut self, amount: u32)
        ensures
            final(self).current == if old(self).current >= amount {
                old(self).current - amount
            } else {
                0
            },
            final(self).max == old(self).max,
            old(self).wf() ==> final(self).wf(),
    {
        self.current = self.current.saturating_sub(amount);
    }

    /// Adds `amount` to the current health, stopping at `max`.
    pub fn heal(&mut self, amount: u32)
        ensures
            final(self).current == if old(self).current + amount <= old(self).max {
                old(self).current + amount
            } else {
                old(self).max as int
            },
            final(self).max == old(self).max,
            old(self).wf() ==> final(self).wf(),
    {
        if self.current as u64 + amount as u64 <= self.max as u64 {
            self.current = self.current + amount;
        } else {
            self.current = self.max;
        }
    }

    pub fn is_dead(&self) -> (r: bool)
        ensures
            r == (self.current == 0),
    {
        self.current == 0
    }

    /// Current health as a whole percentage of `max`, rounded down.
    pub fn percentage(&self) -> (r: u32)
        requires
            self.wf(),
        ensures
            r == self.current * 100 / (self.max as int),
            r <= 100,
    {
        let p = self.current as u64 * 100 / self.max as u64;
        assert(self.current * 100 / (self.max as int) <= 100) by (nonlinear_arith)
            requires
                0 < self.max,
                self.current <= self.max,
        ;
        p as u32
    }
}

/// Velocity, in length units per time unit.
#[derive(Clone, Copy, Debug, PartialEq, Eq, Structural, Default)]
pub struct Velocity(pub Vec2);

/// A round collider.
#[derive(Clone, Copy, Debug, PartialEq, Eq, Structural, Default)]
pub struct Collider {
    pub radius: i64,
}

impl Collider {
    pub fn new(radius: i64) -> (r: Collider)
        ensures
            r.radius == radius,
    {
        Collider { radius }
    }
}

/// Downward acceleration.
#[derive(Clone, Copy, Debug, PartialEq, Eq, Structural)]
pub struct Gravity(pub i64);

impl Default for Gravity {
    fn default() -> (r: Gravity)
        ensures
            r.0 == 980 * PIXEL_PER_SECOND_SQUARED,
    {
        Gravity(980 * PIXEL_PER_SECOND_SQUARED)
    }
}

/// Whether the entity rests on a platform, as of the last collision pass.
#[derive(Clone, Copy, Debug, PartialEq, Eq, Structural, Default)]
pub struct Grounded(pub bool);

/// An axis-aligned box, given by its full width and height.
#[derive(Clone, Copy, Debug, PartialEq, Eq, Structural)]
pub struct BoxCollider {
    pub width: i64,
    pub height: i64,
}

impl BoxCollider {
    pub fn new(width: i64, height: i64) -> (r: BoxCollider)
        ensures
            r.width == width,
            r.height == height,
    {
        BoxCollider { width, height }
    }

    pub open spec fn half_width(self) -> int {
        self.width / 2
    }

    pub open spec fn half_height(self) -> int {
        self.height / 2
    }

    /// Left edge of this box centred at `t`.
    pub open spec fn left(self, t: Transform) -> int {
        t.translation.x - self.half_width()
    }

    /// Right edge of this box centred at `t`.
    pub open spec fn right(self, t: Transform) -> int {
        t.translation.x + self.half_width()
    }

    /// Bottom edge of this box centred at `t`.
    pub open spec fn bottom(self, t: Transform) -> int {
        t.translation.y - self.half_height()
    }

    /// Top edge of this box centred at `t`.
    pub open spec fn top(self, t: Transform) -> int {
        t.translation.y + self.half_height()
    }
}

impl Default for BoxCollider {
    fn default() -> (r: BoxCollider)
        ensures
            r.width == 50 * PIXEL,
            r.height == 50 * PIXEL,
    {
        BoxCollider { width: 50 * PIXEL, height: 50 * PIXEL }
    }
}

/// Jump impulse, and the factor (in thousandths) that scales the remaining
/// upward velocity when the jump input is released early.
#[derive(Clone, Copy, Debug, PartialEq, Eq, Structural)]
pub struct JumpConfig {
    pub jump_velocity: i64,
    pub jump_cut_multiplier: u32,
}

impl Default for JumpConfig {
    fn default() -> (r: JumpConfig)
        ensures
            r.jump_velocity == 450 * PIXEL_PER_SECOND,
            r.jump_cut_multiplier == PER_MILLE / 2,
    {
        JumpConfig { jump_velocity: 450 * PIXEL_PER_SECOND, jump_cut_multiplier: PER_MILLE / 2 }
    }
}

/// Length of a normalised direction: a direction's components are given in
/// thousandths.
pub const DIRECTION_ONE: i64 = 1_000;

/// The direction of `d` scaled to length `DIRECTION_ONE`, each component
/// rounded down; the zero vector stays zero.
pub open spec fn normalized(d: Vec2) -> Vec2 {
    if d.x == 0 && d.y == 0 {
        d
    } else {
        let len = sqrt_floor((d.x * d.x + d.y * d.y) * 1_000_000);
        Vec2 { x: ((d.x * 1_000_000) / len) as i64, y: ((d.y * 1_000_000) / len) as i64 }
    }
}

/// Steady movement along a direction, independent of velocity and gravity.
#[derive(Clone, Copy, Debug, PartialEq, Eq, Structural)]
pub struct AutoMove {
    /// Direction, in thousandths (near-unit length).
    pub direction: Vec2,
    pub speed: i64,
}

impl Default for AutoMove {
    fn default() -> (r: AutoMove)
        ensures
            r.direction.x == -DIRECTION_ONE,
            r.direction.y == 0,
            r.speed == 150 * PIXEL_PER_SECOND,
    {
        AutoMove { direction: Vec2 { x: -DIRECTION_ONE, y: 0 }, speed: 150 * PIXEL_PER_SECOND }
    }
}

/// A component scaled by `normalized` stays within `DIRECTION_ONE`.
proof fn lemma_normalized_component_bound(c: int, s: int, len: int)
    requires
        c * c <= s,
        is_sqrt_floor(s * 1_000_000, len),
        len > 0,
    ensures
        -1000 <= (c * 1_000_000) / len <= 1000,
{
    let a = if c >= 0 { c } else { -c };
    assert(a * a == c * c) by (nonlinear_arith)
        requires
            a == c || a == -c,
    ;
    assert((1000 * a) * (1000 * a) < (len + 1) * (len + 1)) by (nonlinear_arith)
        requires
            a * a <= s,
            s * 1_000_000 < (len + 1) * (len + 1),
    ;
    assert(1000 * a <= len) by (nonlinear_arith)
        requires
            (1000 * a) * (1000 * a) < (len + 1) * (len + 1),
            a >= 0,
            len >= 0,
    ;
    assert(-1000 <= (c * 1_000_000) / len <= 1000) by (nonlinear_arith)
        requires
            1000 * a <= len,
            a == c || a == -c,
            a >= 0,
            len > 0,
    ;
}

impl AutoMove {
    /// The direction has no component longer than `DIRECTION_ONE`.
    pub open spec fn wf(self) -> bool {
        &&& -DIRECTION_ONE <= self.direction.x <= DIRECTION_ONE
        &&& -DIRECTION_ONE <= self.direction.y <= DIRECTION_ONE
    }

    /// Movement along `direction`, normalised, at `speed`. The direction's
    /// squared length, times a million, must fit in `u128`.
    pub fn new(direction: Vec2, speed: i64) -> (r: AutoMove)
        requires
            (direction.x * direction.x + direction.y * direction.y) * 1_000_000 <= u128::MAX,
        ensures
            r.direction == normalized(direction),
            r.speed == speed,
            r.wf(),
    {
        let x = direction.x as i128;
        let y = direction.y as i128;
        if x == 0 && y == 0 {
            return AutoMove { direction, speed };
        }
        let ax: u128 = if x >= 0 { x as u128 } else { (-x) as u128 };
        let ay: u128 = if y >= 0 { y as u128 } else { (-y) as u128 };
        assert(ax * ax <= 0x4000_0000_0000_0000_0000_0000_0000_0000 && ax * ax == x * x)
            by (nonlinear_arith)
            requires
                ax <= 0x8000_0000_0000_0000,
                ax == x || ax == -x,
        ;
        assert(ay * ay <= 0x4000_0000_0000_0000_0000_0000_0000_0000 && ay * ay == y * y)
            by (nonlinear_arith)
            requires
                ay <= 0x8000_0000_0000_0000,
                ay == y || ay == -y,
        ;
        let sq = ax * ax + ay * ay;
        let len = isqrt(sq * 1_000_000);
        proof {
            assert(x * x >= 0 && y * y >= 0) by (nonlinear_arith);
            assert(sq >= 1) by (nonlinear_arith)
                requires
                    sq == x * x + y * y,
                    x != 0 || y != 0,
            ;
            if len == 0 {
                assert((len + 1) * (len + 1) == 1) by (nonlinear_arith)
                    requires
                        len == 0,
                ;
            }
            assert(x * x <= sq && y * y <= sq) by (nonlinear_arith)
                requires
                    sq == x * x + y * y,
            ;
            lemma_normalized_component_bound(x as int, sq as int, len as int);
            lemma_normalized_component_bound(y as int, sq as int, len as int);
        }
        let nx = floor_div(x * 1_000_000, len as i128);
        let ny = floor_div(y * 1_000_000, len as i128);
        AutoMove { direction: Vec2 { x: nx as i64, y: ny as i64 }, speed }
    }

    /// Movement to the left at `speed`.
    pub fn left(speed: i64) -> (r: AutoMove)
        ensures
            r.direction.x == -DIRECTION_ONE,
            r.direction.y == 0,
            r.speed == speed,
            r.wf(),
    {
        let d = Vec2 { x: -1, y: 0 };
        proof {
            assert(d.x * d.x + d.y * d.y == 1) by (nonlinear_arith)
                requires
                    d.x == -1,
                    d.y == 0,
            ;
            lemma_unit_axis_normalized();
        }
        AutoMove::new(d, speed)
    }

    /// Movement to the right at `speed`.
    pub fn right(speed: i64) -> (r: AutoMove)
        ensures
            r.direction.x == DIRECTION_ONE,
            r.direction.y == 0,
            r.speed == speed,
            r.wf(),
    {
        let d = Vec2 { x: 1, y: 0 };
        proof {
            assert(d.x * d.x + d.y * d.y == 1) by (nonlinear_arith)
                requires
                    d.x == 1,
                    d.y == 0,
            ;
            lemma_unit_axis_normalized();
        }
        AutoMove::new(d, speed)
    }
}

/// A unit vector along an axis is its own normalisation, scaled.
proof fn lemma_unit_axis_normalized()
    ensures
        sqrt_floor(1_000_000) == 1000,
{
    assert(is_sqrt_floor(1_000_000, 1000));
    assert(is_sqrt_floor(1_000_000, sqrt_floor(1_000_000)));
    lemma_sqrt_floor_unique(1_000_000, 1000, sqrt_floor(1_000_000));
}

/// How a camera tracks its target: the entity followed, if any, an offset
/// added to the target's position, and a smoothing factor in thousandths
/// (smaller follows faster), kept within `MIN_SMOOTHING..=MAX_SMOOTHING`.
#[derive(Clone, Copy, Debug, PartialEq, Eq, Structural)]
pub struct CameraFollow {
    pub target: Option<Entity>,
    pub offset: Vec2,
    pub smoothing: u32,
}

impl Default for CameraFollow {
    fn default() -> (r: CameraFollow)
        ensures
            r.target.is_none(),
            r.offset == Vec2::spec_zero(),
            r.smoothing == 100,
    {
        CameraFollow { target: None, offset: Vec2 { x: 0, y: 0 }, smoothing: 100 }
    }
}

impl CameraFollow {
    pub fn new(target: Entity) -> (r: CameraFollow)
        ensures
            r.target == Some(target),
            r.offset == Vec2::spec_zero(),
            r.smoothing == 100,
    {
        CameraFollow { target: Some(target), offset: Vec2 { x: 0, y: 0 }, smoothing: 100 }
    }

    pub fn with_offset(self, offset: Vec2) -> (r: CameraFollow)
        ensures
            r == (CameraFollow { offset, ..self }),
    {
        CameraFollow { offset, ..self }
    }

    /// Sets the smoothing factor, clamped into `MIN_SMOOTHING..=MAX_SMOOTHING`.
    pub fn with_smoothing(self, smoothing: u32) -> (r: CameraFollow)
        ensures
            r.target == self.target,
            r.offset == self.offset,
            r.smoothing == if smoothing < MIN_SMOOTHING {
                MIN_SMOOTHING
            } else if smoothing > MAX_SMOOTHING {
                MAX_SMOOTHING
            } else {
                smoothing
            },
    {
        let s = if smoothing < MIN_SMOOTHING {
            MIN_SMOOTHING
        } else if smoothing > MAX_SMOOTHING {
            MAX_SMOOTHING
        } else {
            smoothing
        };
        CameraFollow { smoothing: s, ..self }
    }
}

/// Damage that a hazard deals once, on contact.
#[derive(Clone, Copy, Debug, PartialEq, Eq, Structural)]
pub struct DamageOnContact {
    pub damage: u32,
}

impl Default for DamageOnContact {
    fn default() -> (r: DamageOnContact)
        ensures
            r.damage == 10,
    {
        DamageOnContact { damage: 10 }
    }
}

impl DamageOnContact {
    pub fn new(damage: u32) -> (r: DamageOnContact)
        ensures
            r.damage == damage,
    {
        DamageOnContact { damage }
    }
}

} // verus!
