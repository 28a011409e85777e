//! Contact between the actor and hazards.

use vstd::prelude::*;

use crate::components::{BoxCollider, Health, Transform};
use crate::constants::OBSTACLE_SURVIVE_POINTS;
use crate::geometry::floor_div;
use crate::resources::{Score, score_added};
use crate::sequences::{lemma_filter_from, lemma_filter_step};
use crate::world::Hazard;

verus! {

/// The two boxes overlap on both axes.
pub open spec fn boxes_overlap(a: BoxCollider, at: Transform, b: BoxCollider, bt: Transform) -> bool {
    &&& a.left(at) < b.right(bt)
    &&& a.right(at) > b.left(bt)
    &&& a.bottom(at) < b.top(bt)
    &&& a.top(at) > b.bottom(bt)
}

/// The actor, at `t` with box `c`, touches hazard `h`.
pub open spec fn touches(t: Transform, c: BoxCollider, h: Hazard) -> bool {
    boxes_overlap(c, t, h.collider, h.transform)
}

/// The hazards of `hs` that the actor does not touch, in order.
pub open spec fn untouched(t: Transform, c: BoxCollider, hs: Seq<Hazard>) -> Seq<Hazard> {
    hs.filter(|h: Hazard| !touches(t, c, h))
}

/// How many hazards of `hs` the actor touches.
pub open spec fn touch_count(t: Transform, c: BoxCollider, hs: Seq<Hazard>) -> nat
    decreases hs.len(),
{
    if hs.len() == 0 {
        0
    } else {
        touch_count(t, c, hs.drop_last()) + if touches(t, c, hs.last()) { 1nat } else { 0nat }
    }
}

/// The total damage of the hazards of `hs` that the actor touches.
pub open spec fn touch_damage(t: Transform, c: BoxCollider, hs: Seq<Hazard>) -> nat
    decreases hs.len(),
{
    if hs.len() == 0 {
        0
    } else {
        touch_damage(t, c, hs.drop_last()) + if touches(t, c, hs.last()) {
            hs.last().damage.damage as nat
        } else {
            0nat
        }
    }
}

/// The score after `hits` rewards of `OBSTACLE_SURVIVE_POINTS` are added.
pub open spec fn rewarded(s: Score, hits: nat) -> Score
    decreases hits,
{
    if hits == 0 {
        s
    } else {
        score_added(rewarded(s, (hits - 1) as nat), OBSTACLE_SURVIVE_POINTS)
    }
}

/// Current health after `damage` is taken off, stopping at zero.
pub open spec fn health_after(current: int, damage: int) -> int {
    if current >= damage {
        current - damage
    } else {
        0
    }
}

/// Hazards are told apart by their ids.
pub open spec fn distinct_ids(hs: Seq<Hazard>) -> bool {
    forall|a: int, b: int| 0 <= a < b < hs.len() ==> #[trigger] hs[a].id != #[trigger] hs[b].id
}

/// Where the actor touches exactly one hazard, `hs[k]`: after contact no
/// hazard with its id is left, the damage taken is exactly its damage, and
/// one reward is earned.
pub proof fn lemma_single_contact(t: Transform, c: BoxCollider, hs: Seq<Hazard>, k: int)
    requires
        0 <= k < hs.len(),
        distinct_ids(hs),
        touches(t, c, hs[k]),
        forall|j: int| 0 <= j < hs.len() && j != k ==> !touches(t, c, #[trigger] hs[j]),
    ensures
        forall|j: int|
            0 <= j < untouched(t, c, hs).len() ==> (#[trigger] untouched(t, c, hs)[j]).id != hs[k].id,
        touch_damage(t, c, hs) == hs[k].damage.damage,
        touch_count(t, c, hs) == 1,
    decreases hs.len(),
{
    let front = hs.drop_last();
    lemma_untouched_step(t, c, hs);
    if k < hs.len() - 1 {
        assert(distinct_ids(front));
        lemma_single_contact(t, c, front, k);
        assert(!touches(t, c, hs.last()));
        assert(hs.last().id != hs[k].id);
    } else {
        lemma_untouched_none(t, c, front);
        lemma_filter_from(front, |h: Hazard| !touches(t, c, h));
        assert forall|j: int|
            0 <= j < untouched(t, c, hs).len() implies (#[trigger] untouched(t, c, hs)[j]).id
            != hs[k].id by {
            let m = choose|m: int| 0 <= m < front.len() && front[m] == untouched(t, c, front)[j];
            assert(hs[m] == front[m]);
        }
    }
}

/// Where the actor touches no hazard of `hs`, it counts none and takes no
/// damage.
proof fn lemma_untouched_none(t: Transform, c: BoxCollider, hs: Seq<Hazard>)
    requires
        forall|j: int| 0 <= j < hs.len() ==> !touches(t, c, #[trigger] hs[j]),
    ensures
        touch_damage(t, c, hs) == 0,
        touch_count(t, c, hs) == 0,
    decreases hs.len(),
{
    if hs.len() > 0 {
        let front = hs.drop_last();
        assert(forall|j: int| 0 <= j < front.len() ==> front[j] == hs[j]);
        lemma_untouched_none(t, c, front);
        assert(!touches(t, c, hs[hs.len() - 1]));
    }
}

/// Whether the two boxes overlap, computed exactly.
fn check_overlap(a: &BoxCollider, at: &Transform, b: &BoxCollider, bt: &Transform) -> (r: bool)
    ensures
        r == boxes_overlap(*a, *at, *b, *bt),
{
    let ahw = floor_div(a.width as i128, 2);
    let ahh = floor_div(a.height as i128, 2);
    let bhw = floor_div(b.width as i128, 2);
    let bhh = floor_div(b.height as i128, 2);
    let ax = at.translation.x as i128;
    let ay = at.translation.y as i128;
    let bx = bt.translation.x as i128;
    let by = bt.translation.y as i128;
    ax - ahw < bx + bhw && ax + ahw > bx - bhw && ay - ahh < by + bhh && ay + ahh > by - bhh
}

/// Resolves contact between the actor and every hazard: each touched hazard
/// deals its damage once (health stops at zero), is removed, and awards
/// `OBSTACLE_SURVIVE_POINTS`. Untouched hazards stay, in order.
pub fn check_obstacle_collisions(
    transform: &Transform,
    collider: &BoxCollider,
    health: &mut Health,
    hazards: &mut Vec<Hazard>,
    score: &mut Score,
)
    ensures
        final(hazards)@ == untouched(*transform, *collider, old(hazards)@),
        final(health).current == health_after(
            old(health).current as int,
            touch_damage(*transform, *collider, old(hazards)@) as int,
        ),
        final(health).max == old(health).max,
        old(health).wf() ==> final(health).wf(),
        *final(score) == rewarded(*old(score), touch_count(*transform, *collider, old(hazards)@)),
{
    let ghost hs = hazards@;
    let ghost c0 = health.current;
    let ghost s0 = *score;
    let mut kept: Vec<Hazard> = Vec::new();
    let n = hazards.len();
    let mut i: usize = 0;
    while i < n
        invariant
            i <= n,
            n == hs.len(),
            hazards@ == hs,
            kept@ == untouched(*transform, *collider, hs.take(i as int)),
            health.current == health_after(
                c0 as int,
                touch_damage(*transform, *collider, hs.take(i as int)) as int,
            ),
            health.max == old(health).max,
            old(health).wf() ==> health.wf(),
            *score == rewarded(s0, touch_count(*transform, *collider, hs.take(i as int))),
        decreases n - i,
    {
        let h = hazards[i];
        proof {
            assert(hs.take(i + 1).drop_last() =~= hs.take(i as int));
            assert(hs.take(i + 1).last() == h);
            lemma_untouched_step(*transform, *collider, hs.take(i + 1));
        }
        if check_overlap(collider, transform, &h.collider, &h.transform) {
            health.take_damage(h.damage.damage);
            score.add(OBSTACLE_SURVIVE_POINTS);
        } else {
            kept.push(h);
        }
        i = i + 1;
    }
    proof {
        assert(hs.take(n as int) =~= hs);
    }
    *hazards = kept;
}

/// Filtering a non-empty sequence filters its front, then keeps or drops
/// its last hazard.
proof fn lemma_untouched_step(t: Transform, c: BoxCollider, hs: Seq<Hazard>)
    requires
        hs.len() > 0,
    ensures
        untouched(t, c, hs) == if touches(t, c, hs.last()) {
            untouched(t, c, hs.drop_last())
        } else {
            untouched(t, c, hs.drop_last()).push(hs.last())
        },
{
    lemma_filter_step(hs, |h: Hazard| !touches(t, c, h));
}

} // verus!
