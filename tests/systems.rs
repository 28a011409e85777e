use platformer_core::components::{
    AutoMove, BoxCollider, CameraFollow, DIRECTION_ONE, DamageOnContact, Entity, Gravity,
    Grounded, Health, JumpConfig, Speed, Transform, Velocity,
};
use platformer_core::constants::{DESPAWN_X, OBSTACLE_SURVIVE_POINTS, SPAWN_X};
use platformer_core::geometry::Vec2;
use platformer_core::resources::{ObstacleSpawnTimer, Score};
use platformer_core::simulation::World;
use platformer_core::systems::auto_movement::apply_auto_movement;
use platformer_core::systems::camera::{LERP_ONE, camera_follow_system, setup_camera_follow};
use platformer_core::systems::collision::check_obstacle_collisions;
use platformer_core::systems::movement::{
    InputState, apply_gravity, apply_velocity, check_platform_collisions, player_jump,
    player_movement,
};
use platformer_core::systems::obstacle::{
    HazardRoll, despawn_offscreen_obstacles, roll_hazard, spawn_hazard, spawn_obstacles,
};
use platformer_core::systems::setup::{setup_camera, spawn_platforms, spawn_player};
use platformer_core::systems::ui::{HealthBarStyle, HealthColor, update_health_bar, update_score_display};
use platformer_core::units::{PIXEL, PIXEL_PER_SECOND, SECOND};
use platformer_core::world::{Camera, Hazard, PlatformBody, Playfield};

fn platform(x: i64, top: i64, width: i64, height: i64) -> PlatformBody {
    PlatformBody {
        transform: Transform::from_xy(x, top - height / 2),
        collider: BoxCollider::new(width, height),
    }
}

fn hazard(id: u64, x: i64, y: i64, damage: u32) -> Hazard {
    Hazard {
        id: Entity(id),
        transform: Transform::from_xy(x, y),
        collider: BoxCollider::new(40 * PIXEL, 40 * PIXEL),
        damage: DamageOnContact::new(damage),
        auto_move: AutoMove::left(100 * PIXEL_PER_SECOND),
    }
}

#[test]
fn movement_keys_set_horizontal_velocity() {
    let speed = Speed(250 * PIXEL_PER_SECOND);
    let cases = [
        (false, false, 0),
        (true, false, -250 * PIXEL_PER_SECOND),
        (false, true, 250 * PIXEL_PER_SECOND),
        (true, true, 0),
    ];
    for (left, right, expected) in cases {
        let mut v = Velocity(Vec2::new(7, -9));
        let input = InputState { left, right, ..InputState::default() };
        player_movement(&input, &speed, &mut v);
        assert_eq!(v.0, Vec2::new(expected, -9));
    }
}

#[test]
fn jump_needs_ground_and_release_cuts_rise() {
    let config = JumpConfig::default();
    let press = InputState { jump_pressed: true, ..InputState::default() };
    let mut v = Velocity(Vec2::new(0, 0));
    player_jump(&press, &Grounded(false), &config, &mut v);
    assert_eq!(v.0.y, 0);
    player_jump(&press, &Grounded(true), &config, &mut v);
    assert_eq!(v.0.y, 450 * PIXEL_PER_SECOND);
    let release = InputState { jump_released: true, ..InputState::default() };
    player_jump(&release, &Grounded(false), &config, &mut v);
    assert_eq!(v.0.y, 225 * PIXEL_PER_SECOND);
    let mut falling = Velocity(Vec2::new(0, -100));
    player_jump(&release, &Grounded(false), &config, &mut falling);
    assert_eq!(falling.0.y, -100);
}

#[test]
fn gravity_only_when_airborne_and_integration_per_axis() {
    let g = Gravity::default();
    let mut v = Velocity(Vec2::new(10, 0));
    apply_gravity(16, &g, &Grounded(true), &mut v);
    assert_eq!(v.0, Vec2::new(10, 0));
    apply_gravity(16, &g, &Grounded(false), &mut v);
    assert_eq!(v.0, Vec2::new(10, -980 * 16));
    let mut t = Transform::from_xy(100, 200);
    apply_velocity(16, &v, &mut t);
    assert_eq!(t.translation, Vec2::new(100 + 160, 200 - 980 * 16 * 16));
}

#[test]
fn integration_saturates_at_the_edge_of_the_range() {
    let mut t = Transform::from_xy(i64::MAX - 5, i64::MIN + 5);
    apply_velocity(10, &Velocity(Vec2::new(1, -1)), &mut t);
    assert_eq!(t.translation, Vec2::new(i64::MAX, i64::MIN));
}

#[test]
fn falling_actor_lands_only_within_band() {
    // Actor at y = 0 with half-height 25 has its bottom at -25, which lies
    // 15 below a platform top at -10: outside the 10 deep landing band.
    let collider = BoxCollider::new(40 * PIXEL, 50 * PIXEL);
    let platforms = vec![platform(0, -10 * PIXEL, 200 * PIXEL, 20 * PIXEL)];
    let mut t = Transform::from_xy(0, 0);
    let mut v = Velocity(Vec2::new(0, -50 * PIXEL_PER_SECOND));
    let mut g = Grounded(true);
    check_platform_collisions(&mut t, &mut v, &collider, &mut g, &platforms);
    assert!(!g.0);
    assert_eq!(t.translation.y, 0);
    assert_eq!(v.0.y, -50 * PIXEL_PER_SECOND);

    // With its bottom inside the band it lands on the top: y = -10 + 25 = 15.
    let mut t = Transform::from_xy(0, -12 * PIXEL + 25 * PIXEL);
    check_platform_collisions(&mut t, &mut v, &collider, &mut g, &platforms);
    assert!(g.0);
    assert_eq!(t.translation.y, 15 * PIXEL);
    assert_eq!(v.0.y, 0);
}

#[test]
fn rising_actor_passes_through_and_first_platform_wins() {
    let collider = BoxCollider::new(40 * PIXEL, 50 * PIXEL);
    let platforms = vec![
        platform(500 * PIXEL, 0, 100 * PIXEL, 20 * PIXEL),
        platform(0, 0, 100 * PIXEL, 20 * PIXEL),
        platform(0, 5 * PIXEL, 100 * PIXEL, 20 * PIXEL),
    ];
    let start = Transform::from_xy(0, 22 * PIXEL);
    let mut t = start;
    let mut v = Velocity(Vec2::new(0, 1));
    let mut g = Grounded(false);
    check_platform_collisions(&mut t, &mut v, &collider, &mut g, &platforms);
    assert!(!g.0);
    assert_eq!(t, start);
    v.0.y = 0;
    check_platform_collisions(&mut t, &mut v, &collider, &mut g, &platforms);
    assert!(g.0);
    assert_eq!(t.translation.y, 25 * PIXEL);
    let mut none = Grounded(true);
    check_platform_collisions(&mut t, &mut v, &collider, &mut none, &Vec::new());
    assert!(!none.0);
}

#[test]
fn touched_hazard_is_removed_damages_and_scores() {
    let t = Transform::from_xy(0, 0);
    let c = BoxCollider::new(40 * PIXEL, 50 * PIXEL);
    let mut health = Health::new(100);
    let mut score = Score { current: 5, high_score: 20 };
    let mut hazards = vec![hazard(1, 30 * PIXEL, 0, 15), hazard(2, 300 * PIXEL, 0, 15)];
    check_obstacle_collisions(&t, &c, &mut health, &mut hazards, &mut score);
    assert_eq!(hazards.len(), 1);
    assert_eq!(hazards[0].id, Entity(2));
    assert_eq!(health.current, 85);
    assert_eq!(score.current, 5 + OBSTACLE_SURVIVE_POINTS);
    assert_eq!(score.high_score, 20);
}

#[test]
fn several_contacts_in_one_pass_clamp_health_at_zero() {
    let t = Transform::from_xy(0, 0);
    let c = BoxCollider::new(40 * PIXEL, 50 * PIXEL);
    let mut health = Health::new(30);
    let mut score = Score::default();
    let mut hazards = vec![hazard(1, 0, 0, 20), hazard(2, 10 * PIXEL, 10 * PIXEL, 20)];
    check_obstacle_collisions(&t, &c, &mut health, &mut hazards, &mut score);
    assert!(hazards.is_empty());
    assert_eq!(health.current, 0);
    assert!(health.is_dead());
    assert_eq!(score.current, 2 * OBSTACLE_SURVIVE_POINTS);
    assert_eq!(score.high_score, 2 * OBSTACLE_SURVIVE_POINTS);
}

#[test]
fn touching_edges_is_no_contact() {
    let t = Transform::from_xy(0, 0);
    let c = BoxCollider::new(40 * PIXEL, 40 * PIXEL);
    let mut health = Health::new(100);
    let mut score = Score::default();
    let mut hazards = vec![hazard(1, 40 * PIXEL, 0, 10)];
    check_obstacle_collisions(&t, &c, &mut health, &mut hazards, &mut score);
    assert_eq!(hazards.len(), 1);
    assert_eq!(health.current, 100);
}

#[test]
fn hazard_beyond_despawn_line_is_removed() {
    let mut hazards = vec![
        hazard(1, -850 * PIXEL, 0, 10),
        hazard(2, -800 * PIXEL, 0, 10),
        hazard(3, 0, 0, 10),
    ];
    hazards[0].auto_move = AutoMove::right(500 * PIXEL_PER_SECOND);
    despawn_offscreen_obstacles(&mut hazards, DESPAWN_X);
    let ids: Vec<u64> = hazards.iter().map(|h| h.id.0).collect();
    assert_eq!(ids, vec![2, 3]);
}

#[test]
fn hazards_drift_left() {
    let mut hazards = vec![hazard(1, 0, 0, 10)];
    apply_auto_movement(SECOND / 2, &mut hazards);
    assert_eq!(hazards[0].transform.translation, Vec2::new(-50 * PIXEL, 0));
    let mut diagonal = vec![Hazard { auto_move: AutoMove::new(Vec2::new(3, -4), 1_000), ..hazard(2, 0, 0, 1) }];
    apply_auto_movement(10, &mut diagonal);
    assert_eq!(diagonal[0].transform.translation, Vec2::new(6_000, -8_000));
}

#[test]
fn spawn_hazard_uses_roll_and_defaults() {
    let playfield = Playfield::default();
    let roll = HazardRoll { y: 5 * PIXEL, width: 31 * PIXEL, height: 59 * PIXEL, speed: 120 * PIXEL_PER_SECOND };
    let h = spawn_hazard(Entity(9), &roll, &playfield);
    assert_eq!(h.id, Entity(9));
    assert_eq!(h.transform.translation, Vec2::new(SPAWN_X, 5 * PIXEL));
    assert_eq!(h.collider, BoxCollider::new(31 * PIXEL, 59 * PIXEL));
    assert_eq!(h.damage.damage, 10);
    assert_eq!(h.auto_move.direction, Vec2::new(-DIRECTION_ONE, 0));
    assert_eq!(h.auto_move.speed, 120 * PIXEL_PER_SECOND);
}

#[test]
fn rolls_stay_in_range_and_vary() {
    let playfield = Playfield::default();
    let mut ys = Vec::new();
    for _ in 0..64 {
        let r = roll_hazard(&playfield);
        assert!(playfield.spawn_y_min <= r.y && r.y <= playfield.spawn_y_max);
        assert!(playfield.width_min <= r.width && r.width <= playfield.width_max);
        assert!(playfield.height_min <= r.height && r.height <= playfield.height_max);
        assert!(playfield.speed_min <= r.speed && r.speed <= playfield.speed_max);
        ys.push(r.y);
    }
    assert!(ys.iter().any(|y| *y != ys[0]));
}

#[test]
fn spawner_fires_once_over_four_half_seconds() {
    let playfield = Playfield::default();
    let mut timer = ObstacleSpawnTimer::new(2 * SECOND);
    let mut hazards = Vec::new();
    let mut next_id = 7;
    for tick in 1..=4 {
        spawn_obstacles(SECOND / 2, &mut timer, &playfield, &mut hazards, &mut next_id);
        assert_eq!(hazards.len(), if tick == 4 { 1 } else { 0 });
    }
    assert_eq!(hazards[0].id, Entity(7));
    assert_eq!(hazards[0].transform.translation.x, SPAWN_X);
    assert_eq!(next_id, 8);
}

#[test]
fn camera_moves_by_factor_and_stays_at_rest() {
    let mut camera = setup_camera();
    let target = Transform::from_xy(100, -200);
    camera_follow_system(Some(target), &mut camera, LERP_ONE / 2);
    assert_eq!(camera.transform.translation, Vec2::zero());
    setup_camera_follow(&mut camera, Entity(0));
    assert_eq!(camera.follow.unwrap().smoothing, 50);
    camera_follow_system(Some(target), &mut camera, LERP_ONE / 2);
    assert_eq!(camera.transform.translation, Vec2::new(50, (50 * PIXEL - 200) / 2));
    let mut at_rest = Camera {
        transform: Transform::from_xy(100, 50 * PIXEL - 200),
        follow: Some(CameraFollow::new(Entity(0)).with_offset(Vec2::new(0, 50 * PIXEL))),
    };
    let before = at_rest;
    camera_follow_system(Some(target), &mut at_rest, 123_456);
    assert_eq!(at_rest, before);
    camera_follow_system(None, &mut at_rest, LERP_ONE);
    assert_eq!(at_rest, before);
}

#[test]
fn score_line_and_health_bar() {
    let mut text = String::new();
    update_score_display(&Score { current: 1234, high_score: 1234 }, &mut text);
    assert_eq!(text, "Score: 1234");
    update_score_display(&Score::default(), &mut text);
    assert_eq!(text, "Score: 0");
    let mut bar = HealthBarStyle { width_percent: 0, color: HealthColor::Red };
    for (current, percent, color) in [
        (100, 100, HealthColor::Green),
        (61, 61, HealthColor::Green),
        (60, 60, HealthColor::Yellow),
        (31, 31, HealthColor::Yellow),
        (30, 30, HealthColor::Red),
        (0, 0, HealthColor::Red),
    ] {
        update_health_bar(&Health { current, max: 100 }, &mut bar);
        assert_eq!(bar, HealthBarStyle { width_percent: percent, color });
    }
}

#[test]
fn level_setup() {
    let actor = spawn_player(Entity(0));
    assert_eq!(actor.transform.translation, Vec2::new(0, 100 * PIXEL));
    assert_eq!(actor.collider, BoxCollider::new(40 * PIXEL, 50 * PIXEL));
    assert_eq!(actor.speed.0, 250 * PIXEL_PER_SECOND);
    assert!(!actor.grounded.0);
    let platforms = spawn_platforms();
    assert_eq!(platforms.len(), 6);
    assert_eq!(platforms[0].transform.translation, Vec2::new(0, -250 * PIXEL));
    assert_eq!(platforms[0].collider, BoxCollider::new(800 * PIXEL, 40 * PIXEL));
    assert_eq!(platforms[5].transform.translation, Vec2::new(-250 * PIXEL, 150 * PIXEL));
}

#[test]
fn world_actor_falls_lands_and_rests_on_ground() {
    let mut world = World::new();
    let input = InputState::default();
    let mut ticks = 0;
    while !world.actor.unwrap().grounded.0 && ticks < 200 {
        world.tick(16, &input, LERP_ONE / 10);
        ticks += 1;
    }
    let actor = world.actor.unwrap();
    assert!(actor.grounded.0);
    assert_eq!(actor.velocity.0.y, 0);
    // The first platform below the actor is the middle one, whose top is
    // 50 + 10 = 60 pixels; the actor's half height is 25.
    assert_eq!(actor.transform.translation.y, 85 * PIXEL);
    world.tick(16, &input, LERP_ONE / 10);
    let rested = world.actor.unwrap();
    assert!(rested.grounded.0);
    assert_eq!(rested.transform.translation.y, 85 * PIXEL);
    assert!(world.camera.unwrap().transform.translation.y > 0);
}

#[test]
fn world_hazard_contact_in_a_tick() {
    let mut world = World::new();
    let actor = world.actor.unwrap();
    let h = hazard(42, actor.transform.translation.x, actor.transform.translation.y, 10);
    world.hazards.push(h);
    world.tick(16, &InputState::default(), 0);
    assert!(world.hazards.iter().all(|h| h.id != Entity(42)));
    assert_eq!(world.actor.unwrap().health.current, 90);
    assert_eq!(world.score.current, OBSTACLE_SURVIVE_POINTS);
}
