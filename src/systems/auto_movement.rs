//! Steady drift of auto-moving entities.

use vstd::prelude::*;

use crate::components::DIRECTION_ONE;
use crate::components::Transform;
use crate::geometry::{Vec2, clamp_i64, floor_div, saturate};
use crate::world::Hazard;

verus! {

/// Displacement along one axis over `dt`: the direction component times the
/// speed and the time, rounded down after scaling the direction to one.
pub open spec fn drift(component: i64, speed: i64, dt: u32) -> int {
    (component * speed * dt) / (DIRECTION_ONE as int)
}

/// `h` after drifting for `dt`.
pub open spec fn drifted(h: Hazard, dt: u32) -> Hazard {
    let m = h.auto_move;
    let x = h.transform.translation.x + drift(m.direction.x, m.speed, dt);
    let y = h.transform.translation.y + drift(m.direction.y, m.speed, dt);
    Hazard { transform: Transform { translation: Vec2 { x: clamp_i64(x), y: clamp_i64(y) } }, ..h }
}

/// One axis of the displacement, computed exactly.
fn axis_drift(component: i64, speed: i64, dt: u32) -> (r: i128)
    requires
        -DIRECTION_ONE <= component <= DIRECTION_ONE,
    ensures
        r == drift(component, speed, dt),
        -0x1_0000_0000_0000_0000_0000_0000_0000 <= r <= 0x1_0000_0000_0000_0000_0000_0000_0000,
{
    assert(-0x1_0000_0000_0000_0000_0000_0000_0000 <= component * speed * dt
        <= 0x1_0000_0000_0000_0000_0000_0000_0000) by (nonlinear_arith)
        requires
            -1000 <= component <= 1000,
            -0x8000_0000_0000_0000 <= speed < 0x8000_0000_0000_0000,
            0 <= dt < 0x1_0000_0000,
    ;
    assert(-0x1_0000_0000_0000_0000_0000 <= component * speed <= 0x1_0000_0000_0000_0000_0000) by (nonlinear_arith)
        requires
            -1000 <= component <= 1000,
            -0x8000_0000_0000_0000 <= speed < 0x8000_0000_0000_0000,
    ;
    let cs = component as i128 * speed as i128;
    let p = cs * dt as i128;
    floor_div(p, DIRECTION_ONE as i128)
}

/// Moves every hazard along its direction at its speed for `dt`.
pub fn apply_auto_movement(dt: u32, hazards: &mut Vec<Hazard>)
    requires
        forall|i: int| 0 <= i < old(hazards).len() ==> (#[trigger] old(hazards)[i]).auto_move.wf(),
    ensures
        final(hazards).len() == old(hazards).len(),
        forall|i: int|
            0 <= i < final(hazards).len() ==> #[trigger] final(hazards)[i] == drifted(old(hazards)[i], dt),
{
    let ghost hs = hazards@;
    let n = hazards.len();
    let mut i: usize = 0;
    while i < n
        invariant
            i <= n,
            n == hs.len(),
            hazards.len() == n,
            forall|j: int| 0 <= j < n ==> (#[trigger] hs[j]).auto_move.wf(),
            forall|j: int| 0 <= j < i ==> #[trigger] hazards[j] == drifted(hs[j], dt),
            forall|j: int| i <= j < n ==> #[trigger] hazards[j] == hs[j],
        decreases n - i,
    {
        let mut h = hazards[i];
        assert(hs[i as int].auto_move.wf());
        let dx = axis_drift(h.auto_move.direction.x, h.auto_move.speed, dt);
        let dy = axis_drift(h.auto_move.direction.y, h.auto_move.speed, dt);
        h.transform.translation.x = saturate(h.transform.translation.x as i128 + dx);
        h.transform.translation.y = saturate(h.transform.translation.y as i128 + dy);
        hazards.set(i, h);
        i = i + 1;
    }
}

} // verus!
