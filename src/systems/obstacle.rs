//! Spawning hazards on a timer, and removing those that leave the playfield.

use vstd::prelude::*;

use rand::Rng;

use crate::components::{AutoMove, BoxCollider, DIRECTION_ONE, DamageOnContact, Entity, Transform};
use crate::geometry::Vec2;
use crate::resources::{ObstacleSpawnTimer, timer_fires, timer_remainder};
use crate::world::{Hazard, Playfield};

verus! {

/// The random attributes of a new hazard.
#[derive(Clone, Copy, Debug, PartialEq, Eq, Structural)]
pub struct HazardRoll {
    pub y: i64,
    pub width: i64,
    pub height: i64,
    pub speed: i64,
}

/// Every attribute of `roll` lies within its range on `playfield`.
pub open spec fn roll_within(roll: HazardRoll, playfield: Playfield) -> bool {
    &&& playfield.spawn_y_min <= roll.y <= playfield.spawn_y_max
    &&& playfield.width_min <= roll.width <= playfield.width_max
    &&& playfield.height_min <= roll.height <= playfield.height_max
    &&& playfield.speed_min <= roll.speed <= playfield.speed_max
}

/// The hazard made from `roll`: at the spawn coordinate, of the rolled size,
/// drifting left at the rolled speed, with the default damage.
pub open spec fn hazard_from_roll(id: Entity, roll: HazardRoll, playfield: Playfield) -> Hazard {
    Hazard {
        id,
        transform: Transform { translation: Vec2 { x: playfield.spawn_x, y: roll.y } },
        collider: BoxCollider { width: roll.width, height: roll.height },
        damage: DamageOnContact { damage: 10 },
        auto_move: AutoMove { direction: Vec2 { x: (-DIRECTION_ONE) as i64, y: 0 }, speed: roll.speed },
    }
}

/// Relies on rand's `thread_rng().gen_range(low..=high)`: a value of the
/// inclusive range, which must not be empty.
#[verifier::external_body]
fn random_between(low: i64, high: i64) -> (r: i64)
    requires
        low <= high,
    ensures
        low <= r <= high,
{
    rand::thread_rng().gen_range(low..=high)
}

/// Draws the attributes of a hazard, each uniformly within its range.
pub fn roll_hazard(playfield: &Playfield) -> (r: HazardRoll)
    requires
        playfield.wf(),
    ensures
        roll_within(r, *playfield),
{
    let y = random_between(playfield.spawn_y_min, playfield.spawn_y_max);
    let width = random_between(playfield.width_min, playfield.width_max);
    let height = random_between(playfield.height_min, playfield.height_max);
    let speed = random_between(playfield.speed_min, playfield.speed_max);
    HazardRoll { y, width, height, speed }
}

/// Builds the hazard that `roll` describes.
pub fn spawn_hazard(id: Entity, roll: &HazardRoll, playfield: &Playfield) -> (h: Hazard)
    ensures
        h == hazard_from_roll(id, *roll, *playfield),
{
    Hazard {
        id,
        transform: Transform::from_xy(playfield.spawn_x, roll.y),
        collider: BoxCollider::new(roll.width, roll.height),
        damage: DamageOnContact::default(),
        auto_move: AutoMove::left(roll.speed),
    }
}

/// Advances the spawn timer by `dt`; when it fires, appends one hazard with
/// id `next_id` and random attributes within the playfield's ranges, and
/// moves `next_id` on.
pub fn spawn_obstacles(
    dt: u32,
    spawn_timer: &mut ObstacleSpawnTimer,
    playfield: &Playfield,
    hazards: &mut Vec<Hazard>,
    next_id: &mut u64,
)
    requires
        playfield.wf(),
        *old(next_id) < u64::MAX,
    ensures
        final(spawn_timer).timer.spec_duration() == old(spawn_timer).timer.spec_duration(),
        final(spawn_timer).timer.wf(),
        ({
            let (d, e) = (old(spawn_timer).timer.spec_duration(), old(spawn_timer).timer.spec_elapsed());
            if timer_fires(d, e, dt) {
                &&& final(spawn_timer).timer.spec_elapsed() == timer_remainder(d, e, dt)
                &&& *final(next_id) == *old(next_id) + 1
                &&& exists|roll: HazardRoll|
                    roll_within(roll, *playfield) && final(hazards)@ == old(hazards)@.push(
                        #[trigger] hazard_from_roll(Entity(*old(next_id)), roll, *playfield),
                    )
            } else {
                &&& final(spawn_timer).timer.spec_elapsed() == e + dt
                &&& *final(next_id) == *old(next_id)
                &&& final(hazards)@ == old(hazards)@
            }
        }),
{
    if spawn_timer.timer.tick(dt) {
        let roll = roll_hazard(playfield);
        let h = spawn_hazard(Entity(*next_id), &roll, playfield);
        hazards.push(h);
        *next_id = *next_id + 1;
    }
}

/// The hazards of `hs` that have not crossed the left boundary `despawn_x`.
pub open spec fn on_playfield(hs: Seq<Hazard>, despawn_x: i64) -> Seq<Hazard> {
    hs.filter(|h: Hazard| h.transform.translation.x >= despawn_x)
}

/// Removes every hazard whose horizontal coordinate is below `despawn_x`;
/// the others stay, in order.
pub fn despawn_offscreen_obstacles(hazards: &mut Vec<Hazard>, despawn_x: i64)
    ensures
        final(hazards)@ == on_playfield(old(hazards)@, despawn_x),
{
    let ghost hs = hazards@;
    let mut kept: Vec<Hazard> = Vec::new();
    let n = hazards.len();
    let mut i: usize = 0;
    while i < n
        invariant
            i <= n,
            n == hs.len(),
            hazards@ == hs,
            kept@ == on_playfield(hs.take(i as int), despawn_x),
        decreases n - i,
    {
        let h = hazards[i];
        proof {
            assert(hs.take(i + 1).drop_last() =~= hs.take(i as int));
            lemma_on_playfield_step(hs.take(i + 1), despawn_x);
        }
        if h.transform.translation.x >= despawn_x {
            kept.push(h);
        }
        i = i + 1;
    }
    proof {
        assert(hs.take(n as int) =~= hs);
    }
    *hazards = kept;
}

/// Filtering a non-empty sequence filters its front, then keeps or drops
/// its last hazard.
proof fn lemma_on_playfield_step(hs: Seq<Hazard>, despawn_x: i64)
    requires
        hs.len() > 0,
    ensures
        on_playfield(hs, despawn_x) == if hs.last().transform.translation.x >= despawn_x {
            on_playfield(hs.drop_last(), despawn_x).push(hs.last())
        } else {
            on_playfield(hs.drop_last(), despawn_x)
        },
{
    reveal_with_fuel(Seq::filter, 1);
}

} // verus!
