//! The simulation context and its ordered tick: input, gravity, integration,
//! auto-movement, platform collision, hazard collision, spawn and despawn,
//! camera.

use vstd::prelude::*;

use crate::components::{CameraFollow, Entity, Health, Transform, Velocity};
use crate::geometry::{Vec2, clamp_i64};
use crate::resources::{ObstacleSpawnTimer, Score, timer_fires, timer_remainder};
use crate::sequences::lemma_filter_from;
use crate::systems::auto_movement::{apply_auto_movement, drifted};
use crate::systems::camera::{LERP_ONE, camera_follow_system, followed, setup_camera_follow};
use crate::systems::collision::{
    check_obstacle_collisions, health_after, rewarded, touch_count, touch_damage, untouched,
};
use crate::systems::movement::{
    InputState, apply_gravity, apply_velocity, check_platform_collisions, jumped_velocity_y,
    landing_outcome, move_direction, player_jump, player_movement,
};
use crate::systems::obstacle::{
    HazardRoll, despawn_offscreen_obstacles, hazard_from_roll, on_playfield, roll_within,
    spawn_obstacles,
};
use crate::systems::setup::{level_platforms, setup_camera, spawn_platforms, spawn_player};
use crate::units::{PIXEL, SECOND};
use crate::world::{Actor, Camera, Hazard, PlatformBody, Playfield};

verus! {

/// Everything the simulation holds from one tick to the next.
pub struct World {
    pub actor: Option<Actor>,
    pub platforms: Vec<PlatformBody>,
    pub hazards: Vec<Hazard>,
    pub camera: Option<Camera>,
    pub score: Score,
    pub spawn_timer: ObstacleSpawnTimer,
    pub playfield: Playfield,
    /// The id that the next spawned hazard receives.
    pub next_id: u64,
}

/// The actor after one tick's input, gravity and integration, in that
/// order. Gravity and jumping read the grounding of the previous tick.
pub open spec fn actor_moved(a: Actor, input: InputState, dt: u32) -> Actor {
    let vx = clamp_i64(move_direction(input) * a.speed.0);
    let vy1 = clamp_i64(jumped_velocity_y(input, a.grounded, a.jump, a.velocity.0.y as int));
    let vy = if a.grounded.0 { vy1 } else { clamp_i64(vy1 - a.gravity.0 * dt) };
    let x = clamp_i64(a.transform.translation.x + vx * dt);
    let y = clamp_i64(a.transform.translation.y + vy * dt);
    Actor {
        velocity: Velocity(Vec2 { x: vx, y: vy }),
        transform: Transform { translation: Vec2 { x, y } },
        ..a
    }
}

/// The actor after landing resolution against `ps`.
pub open spec fn actor_landed(a: Actor, ps: Seq<PlatformBody>) -> Actor {
    let (t, v, g) = landing_outcome(a.transform, a.velocity, a.collider, ps);
    Actor { transform: t, velocity: v, grounded: g, ..a }
}

/// Every hazard of `hs` after drifting for `dt`.
pub open spec fn all_drifted(hs: Seq<Hazard>, dt: u32) -> Seq<Hazard> {
    Seq::new(hs.len(), |i: int| drifted(hs[i], dt))
}

/// The actor after taking the damage of the hazards of `hs` it touches.
pub open spec fn actor_hit(a: Actor, hs: Seq<Hazard>) -> Actor {
    let current = health_after(
        a.health.current as int,
        touch_damage(a.transform, a.collider, hs) as int,
    );
    Actor { health: Health { current: current as u32, ..a.health }, ..a }
}

/// The transform the camera follows: the actor's, when the camera's target
/// is the actor.
pub open spec fn camera_target(camera: Camera, actor: Option<Actor>) -> Option<Transform> {
    match (camera.follow, actor) {
        (Some(f), Some(a)) => if f.target == Some(a.id) {
            Some(a.transform)
        } else {
            None
        },
        _ => None,
    }
}

/// From `old` to `new`, the spawn timer advanced by `dt`, a hazard was
/// appended to `hs` when it fired, and the hazards beyond the despawn line
/// were removed.
pub open spec fn spawned_and_despawned(new: World, old: World, hs: Seq<Hazard>, dt: u32) -> bool {
    let (d, e) = (old.spawn_timer.timer.spec_duration(), old.spawn_timer.timer.spec_elapsed());
    &&& new.spawn_timer.timer.spec_duration() == d
    &&& if timer_fires(d, e, dt) {
        &&& new.spawn_timer.timer.spec_elapsed() == timer_remainder(d, e, dt)
        &&& new.next_id == old.next_id + 1
        &&& exists|roll: HazardRoll|
            roll_within(roll, old.playfield) && new.hazards@ == on_playfield(
                hs.push(#[trigger] hazard_from_roll(Entity(old.next_id), roll, old.playfield)),
                old.playfield.despawn_x,
            )
    } else {
        &&& new.spawn_timer.timer.spec_elapsed() == e + dt
        &&& new.next_id == old.next_id
        &&& new.hazards@ == on_playfield(hs, old.playfield.despawn_x)
    }
}

impl World {
    /// The playfield's ranges are non-empty, every hazard drifts along a
    /// near-unit direction, and the spawn timer keeps its remainder below
    /// its duration.
    pub open spec fn wf(&self) -> bool {
        &&& self.playfield.wf()
        &&& forall|i: int| 0 <= i < self.hazards.len() ==> (#[trigger] self.hazards[i]).auto_move.wf()
        &&& self.spawn_timer.timer.wf()
    }

    /// The level at its start: the actor (id 0) above the ground, the
    /// platforms, a camera following the actor, no hazards, no score.
    pub fn new() -> (r: World)
        ensures
            r.wf(),
            r.actor.is_some() && r.actor.unwrap().id == Entity(0),
            r.actor.unwrap().transform.translation == (Vec2 { x: 0, y: (100 * PIXEL) as i64 }),
            !r.actor.unwrap().grounded.0,
            r.platforms@ == level_platforms(),
            r.hazards@.len() == 0,
            r.camera == Some(
                Camera {
                    transform: Transform { translation: Vec2 { x: 0, y: 0 } },
                    follow: Some(
                        CameraFollow {
                            target: Some(Entity(0)),
                            offset: Vec2 { x: 0, y: (50 * PIXEL) as i64 },
                            smoothing: 50,
                        },
                    ),
                },
            ),
            r.score == (Score { current: 0, high_score: 0 }),
            r.spawn_timer.timer.spec_duration() == 2 * SECOND,
            r.spawn_timer.timer.spec_elapsed() == 0,
            r.next_id == 1,
    {
        let actor = spawn_player(Entity(0));
        let mut camera = setup_camera();
        setup_camera_follow(&mut camera, actor.id);
        World {
            actor: Some(actor),
            platforms: spawn_platforms(),
            hazards: Vec::new(),
            camera: Some(camera),
            score: Score::default(),
            spawn_timer: ObstacleSpawnTimer::default(),
            playfield: Playfield::default(),
            next_id: 1,
        }
    }

    /// Runs one tick of `dt` milliseconds, stage by stage: the actor's
    /// input, gravity and integration; hazard drift; landing on platforms;
    /// contact with hazards; spawning and despawning; the camera, moved by
    /// `camera_factor` millionths towards its target. Without an actor the
    /// actor's stages are skipped and the camera stays.
    pub fn tick(&mut self, dt: u32, input: &InputState, camera_factor: u32)
        requires
            old(self).wf(),
            old(self).next_id < u64::MAX,
            camera_factor <= LERP_ONE,
        ensures
            final(self).wf(),
            final(self).platforms@ == old(self).platforms@,
            final(self).playfield == old(self).playfield,
            spawned_and_despawned(
                *final(self),
                *old(self),
                match old(self).actor {
                    Some(a) => {
                        let a1 = actor_landed(actor_moved(a, *input, dt), old(self).platforms@);
                        untouched(a1.transform, a1.collider, all_drifted(old(self).hazards@, dt))
                    },
                    None => all_drifted(old(self).hazards@, dt),
                },
                dt,
            ),
            match old(self).actor {
                Some(a) => {
                    let a1 = actor_landed(actor_moved(a, *input, dt), old(self).platforms@);
                    let hs = all_drifted(old(self).hazards@, dt);
                    &&& final(self).actor == Some(actor_hit(a1, hs))
                    &&& final(self).score == rewarded(
                        old(self).score,
                        touch_count(a1.transform, a1.collider, hs),
                    )
                    &&& final(self).camera == match old(self).camera {
                        Some(c) => Some(followed(c, camera_target(c, Some(a1)), camera_factor)),
                        None => None,
                    }
                },
                None => {
                    &&& final(self).actor.is_none()
                    &&& final(self).score == old(self).score
                    &&& final(self).camera == old(self).camera
                },
            },
    {
        let ghost old_world = *self;
        let mut actor_now: Option<Actor> = None;
        if let Some(a0) = self.actor {
            let mut a = a0;
            player_movement(input, &a.speed, &mut a.velocity);
            player_jump(input, &a.grounded, &a.jump, &mut a.velocity);
            apply_gravity(dt, &a.gravity, &a.grounded, &mut a.velocity);
            apply_velocity(dt, &a.velocity, &mut a.transform);
            assert(a == actor_moved(a0, *input, dt));
            actor_now = Some(a);
        }
        apply_auto_movement(dt, &mut self.hazards);
        assert(self.hazards@ =~= all_drifted(old_world.hazards@, dt));
        if let Some(a0) = actor_now {
            let mut a = a0;
            check_platform_collisions(
                &mut a.transform,
                &mut a.velocity,
                &a.collider,
                &mut a.grounded,
                &self.platforms,
            );
            assert(a == actor_landed(a0, self.platforms@));
            let ghost landed = a;
            check_obstacle_collisions(
                &a.transform,
                &a.collider,
                &mut a.health,
                &mut self.hazards,
                &mut self.score,
            );
            assert(a == actor_hit(landed, all_drifted(old_world.hazards@, dt)));
            actor_now = Some(a);
            self.actor = Some(a);
        }
        let ghost survivors = self.hazards@;
        proof {
            lemma_hazards_wf_kept(survivors, all_drifted(old_world.hazards@, dt), actor_now);
        }
        spawn_obstacles(dt, &mut self.spawn_timer, &self.playfield, &mut self.hazards, &mut self.next_id);
        let ghost spawned = self.hazards@;
        despawn_offscreen_obstacles(&mut self.hazards, self.playfield.despawn_x);
        proof {
            lemma_filter_from(spawned, |h: Hazard| h.transform.translation.x >= self.playfield.despawn_x);
            assert forall|i: int| 0 <= i < self.hazards.len() implies (#[trigger] self.hazards[i]).auto_move.wf() by {
                let m = choose|m: int| 0 <= m < spawned.len() && spawned[m] == on_playfield(spawned, self.playfield.despawn_x)[i];
                if m < survivors.len() {
                    assert(spawned[m] == survivors[m]);
                }
            }
        }
        if let Some(mut camera) = self.camera {
            let target = match (camera.follow, actor_now) {
                (Some(f), Some(a)) => if f.target == Some(a.id) {
                    Some(a.transform)
                } else {
                    None
                },
                _ => None,
            };
            if actor_now.is_some() {
                camera_follow_system(target, &mut camera, camera_factor);
                self.camera = Some(camera);
            }
        }
    }
}

/// The hazards that survive contact still drift along near-unit directions.
proof fn lemma_hazards_wf_kept(
    survivors: Seq<Hazard>,
    drifted_hs: Seq<Hazard>,
    actor: Option<Actor>,
)
    requires
        forall|i: int| 0 <= i < drifted_hs.len() ==> (#[trigger] drifted_hs[i]).auto_move.wf(),
        match actor {
            Some(a) => survivors == untouched(a.transform, a.collider, drifted_hs),
            None => survivors == drifted_hs,
        },
    ensures
        forall|i: int| 0 <= i < survivors.len() ==> (#[trigger] survivors[i]).auto_move.wf(),
{
    if let Some(a) = actor {
        lemma_filter_from(drifted_hs, |h: Hazard| !crate::systems::collision::touches(a.transform, a.collider, h));
    }
}

} // verus!
