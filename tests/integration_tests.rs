use platformer_core::components::{AutoMove, DIRECTION_ONE, DamageOnContact, Health, Speed};
use platformer_core::geometry::Vec2;
use platformer_core::resources::{GameSettings, GameTimer, ObstacleSpawnTimer, Score};
use platformer_core::units::{PER_MILLE, PIXEL_PER_SECOND, SECOND};

#[test]
fn test_health_creation() {
    let health = Health::new(100);
    assert_eq!(health.current, 100);
    assert_eq!(health.max, 100);
    assert!(!health.is_dead());
}

#[test]
fn test_health_damage_and_heal() {
    let mut health = Health::new(100);

    health.take_damage(30);
    assert_eq!(health.current, 70);

    health.heal(20);
    assert_eq!(health.current, 90);
}

#[test]
fn test_speed_default() {
    let speed = Speed::default();
    assert_eq!(speed.0, 200 * PIXEL_PER_SECOND);
}

#[test]
fn test_game_settings_default() {
    let settings = GameSettings::default();
    assert_eq!(settings.master_volume, PER_MILLE);
    assert_eq!(settings.music_volume, 700);
    assert_eq!(settings.sfx_volume, PER_MILLE);
    assert!(!settings.fullscreen);
}

#[test]
fn test_score_tracking() {
    let mut score = Score::default();
    assert_eq!(score.current, 0);
    assert_eq!(score.high_score, 0);

    score.add(100);
    assert_eq!(score.current, 100);
    assert_eq!(score.high_score, 100);

    score.reset();
    assert_eq!(score.current, 0);
    assert_eq!(score.high_score, 100);
}

#[test]
fn test_game_timer() {
    let mut timer = GameTimer::default();
    assert_eq!(timer.elapsed, 0);
    assert!(!timer.paused);

    timer.tick(16);
    assert!(timer.elapsed > 0);

    timer.pause();
    let elapsed_before = timer.elapsed;
    timer.tick(16);
    assert_eq!(timer.elapsed, elapsed_before);

    timer.resume();
    timer.tick(16);
    assert!(timer.elapsed > elapsed_before);
}

#[test]
fn test_auto_move_creation() {
    let auto_move = AutoMove::new(Vec2::new(1, 0), 200 * PIXEL_PER_SECOND);
    assert_eq!(auto_move.speed, 200 * PIXEL_PER_SECOND);
    assert_eq!(auto_move.direction.x, DIRECTION_ONE);
}

#[test]
fn test_auto_move_helpers() {
    let left = AutoMove::left(100 * PIXEL_PER_SECOND);
    assert_eq!(left.direction.x, -DIRECTION_ONE);
    assert_eq!(left.speed, 100 * PIXEL_PER_SECOND);

    let right = AutoMove::right(150 * PIXEL_PER_SECOND);
    assert_eq!(right.direction.x, DIRECTION_ONE);
    assert_eq!(right.speed, 150 * PIXEL_PER_SECOND);
}

#[test]
fn test_damage_on_contact() {
    let default_damage = DamageOnContact::default();
    assert_eq!(default_damage.damage, 10);

    let custom_damage = DamageOnContact::new(25);
    assert_eq!(custom_damage.damage, 25);
}

#[test]
fn test_obstacle_spawn_timer() {
    let default_timer = ObstacleSpawnTimer::default();
    assert_eq!(default_timer.timer.duration(), 2 * SECOND);

    let custom_timer = ObstacleSpawnTimer::new(3 * SECOND + SECOND / 2);
    assert_eq!(custom_timer.timer.duration(), 3_500);
}
