use platformer_core::resources::{GameTimer, ObstacleSpawnTimer, Score, SpawnTimer};
use platformer_core::units::SECOND;

#[test]
fn test_score_add() {
    let mut score = Score::default();
    score.add(100);
    assert_eq!(score.current, 100);
    assert_eq!(score.high_score, 100);
}

#[test]
fn test_score_high_score_update() {
    let mut score = Score::default();
    score.add(50);
    score.reset();
    score.add(30);
    assert_eq!(score.current, 30);
    assert_eq!(score.high_score, 50);
}

#[test]
fn test_game_timer_tick() {
    let mut timer = GameTimer::default();
    timer.tick(SECOND);
    assert_eq!(timer.elapsed, SECOND as u64);
}

#[test]
fn test_game_timer_pause() {
    let mut timer = GameTimer::default();
    timer.tick(SECOND);
    timer.pause();
    timer.tick(SECOND);
    assert_eq!(timer.elapsed, SECOND as u64);
}

#[test]
fn score_adds_never_lower_current_and_high_is_running_max() {
    let mut score = Score::default();
    let mut seen_max = 0;
    for points in [0, 5, 0, 12, 3] {
        let before = score.current;
        score.add(points);
        assert!(score.current >= before);
        seen_max = seen_max.max(score.current);
        assert_eq!(score.high_score, seen_max);
    }
    assert_eq!(score.current, 20);
}

#[test]
fn score_saturates_at_the_largest_value() {
    let mut score = Score { current: u32::MAX - 1, high_score: 3 };
    score.add(10);
    assert_eq!(score.current, u32::MAX);
    assert_eq!(score.high_score, u32::MAX);
}

#[test]
fn score_reset_keeps_high_score() {
    let mut score = Score { current: 40, high_score: 90 };
    score.reset();
    assert_eq!(score.current, 0);
    assert_eq!(score.high_score, 90);
}

#[test]
fn spawn_timer_fires_once_on_fourth_half_second() {
    let mut timer = SpawnTimer::new(2 * SECOND);
    let fired: Vec<bool> = (0..4).map(|_| timer.tick(SECOND / 2)).collect();
    assert_eq!(fired, vec![false, false, false, true]);
    assert_eq!(timer.elapsed(), 0);
}

#[test]
fn spawn_timer_keeps_remainder() {
    let mut timer = SpawnTimer::new(1000);
    assert!(!timer.tick(700));
    assert!(timer.tick(700));
    assert_eq!(timer.elapsed(), 400);
    assert!(timer.tick(2_900));
    assert_eq!(timer.elapsed(), 300);
}

#[test]
fn zero_duration_timer_fires_every_tick() {
    let mut timer = ObstacleSpawnTimer::new(0);
    assert!(timer.timer.tick(0));
    assert!(timer.timer.tick(16));
    assert_eq!(timer.timer.elapsed(), 0);
}
