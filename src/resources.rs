//! Session-wide state: settings, score and timers.

use vstd::prelude::*;

use crate::units::{PER_MILLE, SECOND};

verus! {

/// Audio and display settings; volumes are in thousandths.
#[derive(Clone, Copy, Debug, PartialEq, Eq, Structural)]
pub struct GameSettings {
    pub master_volume: u32,
    pub music_volume: u32,
    pub sfx_volume: u32,
    pub fullscreen: bool,
}

impl Default for GameSettings {
    fn default() -> (r: GameSettings)
        ensures
            r.master_volume == PER_MILLE,
            r.music_volume == 700,
            r.sfx_volume == PER_MILLE,
            !r.fullscreen,
    {
        GameSettings { master_volume: PER_MILLE, music_volume: 700, sfx_volume: PER_MILLE, fullscreen: false }
    }
}

/// The current score and the highest score reached.
#[derive(Clone, Copy, Debug, PartialEq, Eq, Structural)]
pub struct Score {
    pub current: u32,
    pub high_score: u32,
}

/// `v` capped at `u32::MAX`.
pub open spec fn cap_u32(v: int) -> u32 {
    if v > u32::MAX {
        u32::MAX
    } else {
        v as u32
    }
}

/// The score after `points` are added to `s`: the current score grows by
/// them (saturating at `u32::MAX`), and the high score rises to it.
pub open spec fn score_added(s: Score, points: u32) -> Score {
    let current = cap_u32(s.current + points);
    Score { current, high_score: if current > s.high_score { current } else { s.high_score } }
}

impl Default for Score {
    fn default() -> (r: Score)
        ensures
            r.current == 0,
            r.high_score == 0,
    {
        Score { current: 0, high_score: 0 }
    }
}

impl Score {
    /// Adds `points` to the current score, saturating at `u32::MAX`, and
    /// raises the high score to it.
    pub fn add(&mut self, points: u32)
        ensures
            *final(self) == score_added(*old(self), points),
            final(self).current == cap_u32(old(self).current + points),
            final(self).high_score == if final(self).current > old(self).high_score {
                final(self).current
            } else {
                old(self).high_score
            },
    {
        self.current = self.current.saturating_add(points);
        if self.current > self.high_score {
            self.high_score = self.current;
        }
    }

    /// Sets the current score to zero; the high score stays.
    pub fn reset(&mut self)
        ensures
            final(self).current == 0,
            final(self).high_score == old(self).high_score,
    {
        self.current = 0;
    }
}

/// The sum of `points`.
pub open spec fn points_total(points: Seq<u32>) -> int
    decreases points.len(),
{
    if points.len() == 0 {
        0
    } else {
        points_total(points.drop_last()) + points.last()
    }
}

/// The score after each of `points` is added to `s` in turn.
pub open spec fn score_after_adds(s: Score, points: Seq<u32>) -> Score
    decreases points.len(),
{
    if points.len() == 0 {
        s
    } else {
        score_added(score_after_adds(s, points.drop_last()), points.last())
    }
}

/// Adding points in sequence, from a score whose high score is at least its
/// current value: the current score never decreases from one addition to
/// the next, it ends at the start plus the total (capped at `u32::MAX`), and
/// the high score ends
/// as the larger of the starting high score and every current value seen,
/// which is the final one.
pub proof fn lemma_score_adds_monotonic(s: Score, points: Seq<u32>)
    requires
        s.current <= s.high_score,
    ensures
        forall|k: int|
            0 <= k < points.len() ==> (#[trigger] score_after_adds(s, points.take(k))).current
                <= score_after_adds(s, points.take(k + 1)).current,
        score_after_adds(s, points).current == cap_u32(s.current + points_total(points)),
        forall|k: int|
            0 <= k <= points.len() ==> (#[trigger] score_after_adds(s, points.take(k))).current
                <= score_after_adds(s, points).high_score,
        score_after_adds(s, points).high_score == if score_after_adds(s, points).current
            > s.high_score {
            score_after_adds(s, points).current
        } else {
            s.high_score
        },
    decreases points.len(),
{
    if points.len() > 0 {
        let front = points.drop_last();
        assert(points_total(points) >= points_total(front));
        lemma_points_total_nonneg(front);
        lemma_score_adds_monotonic(s, front);
        assert(points.take(points.len() as int) =~= points);
        assert forall|k: int| 0 <= k < points.len() implies (#[trigger] score_after_adds(
            s,
            points.take(k),
        )).current <= score_after_adds(s, points.take(k + 1)).current by {
            assert(points.take(k + 1).drop_last() =~= points.take(k));
            if k + 1 < points.len() {
                assert(front.take(k) =~= points.take(k));
                assert(front.take(k + 1) =~= points.take(k + 1));
            }
        }
        assert forall|k: int| 0 <= k <= points.len() implies (#[trigger] score_after_adds(
            s,
            points.take(k),
        )).current <= score_after_adds(s, points).high_score by {
            if k < points.len() {
                assert(front.take(k) =~= points.take(k));
            }
        }
    } else {
        assert(points.take(0) =~= points);
    }
}

proof fn lemma_points_total_nonneg(points: Seq<u32>)
    ensures
        points_total(points) >= 0,
    decreases points.len(),
{
    if points.len() > 0 {
        lemma_points_total_nonneg(points.drop_last());
    }
}

/// Time spent playing, in milliseconds, and whether it is paused.
#[derive(Clone, Copy, Debug, PartialEq, Eq, Structural)]
pub struct GameTimer {
    pub elapsed: u64,
    pub paused: bool,
}

impl Default for GameTimer {
    fn default() -> (r: GameTimer)
        ensures
            r.elapsed == 0,
            !r.paused,
    {
        GameTimer { elapsed: 0, paused: false }
    }
}

impl GameTimer {
    /// Advances the timer by `delta` milliseconds unless it is paused,
    /// saturating at `u64::MAX`.
    pub fn tick(&mut self, delta: u32)
        ensures
            final(self).elapsed == if old(self).paused {
                old(self).elapsed as int
            } else if old(self).elapsed + delta > u64::MAX {
                u64::MAX as int
            } else {
                old(self).elapsed + delta
            },
            final(self).paused == old(self).paused,
    {
        if !self.paused {
            self.elapsed = self.elapsed.saturating_add(delta as u64);
        }
    }

    pub fn pause(&mut self)
        ensures
            final(self).paused,
            final(self).elapsed == old(self).elapsed,
    {
        self.paused = true;
    }

    pub fn resume(&mut self)
        ensures
            !final(self).paused,
            final(self).elapsed == old(self).elapsed,
    {
        self.paused = false;
    }

    pub fn reset(&mut self)
        ensures
            final(self).elapsed == 0,
            final(self).paused == old(self).paused,
    {
        self.elapsed = 0;
    }
}

/// A repeating timer: it accumulates time and fires whenever the
/// accumulated time reaches its duration, keeping the remainder.
#[derive(Clone, Copy, Debug, PartialEq, Eq, Structural)]
pub struct SpawnTimer {
    duration: u32,
    elapsed: u32,
}

/// Whether the timer fires when `dt` is added to `elapsed`.
pub open spec fn timer_fires(duration: u32, elapsed: u32, dt: u32) -> bool {
    elapsed + dt >= duration
}

/// The time accumulated after `dt` is added to `elapsed`.
pub open spec fn timer_remainder(duration: u32, elapsed: u32, dt: u32) -> int {
    if duration == 0 {
        0
    } else {
        (elapsed + dt) % (duration as int)
    }
}

impl SpawnTimer {
    pub closed spec fn spec_duration(&self) -> u32 {
        self.duration
    }

    pub closed spec fn spec_elapsed(&self) -> u32 {
        self.elapsed
    }

    /// Accumulated time stays below the duration.
    pub open spec fn wf(self) -> bool {
        self.spec_elapsed() < self.spec_duration() || self.spec_elapsed() == 0
    }

    /// A timer of `duration` milliseconds with nothing accumulated.
    pub fn new(duration: u32) -> (r: SpawnTimer)
        ensures
            r.spec_duration() == duration,
            r.spec_elapsed() == 0,
            r.wf(),
    {
        SpawnTimer { duration, elapsed: 0 }
    }

    #[verifier::when_used_as_spec(spec_duration)]
    pub fn duration(&self) -> (r: u32)
        ensures
            r == self.spec_duration(),
    {
        self.duration
    }

    #[verifier::when_used_as_spec(spec_elapsed)]
    pub fn elapsed(&self) -> (r: u32)
        ensures
            r == self.spec_elapsed(),
    {
        self.elapsed
    }

    /// Adds `dt` milliseconds; returns whether the timer fired. When it fires,
    /// the accumulated time becomes the remainder after whole durations.
    pub fn tick(&mut self, dt: u32) -> (fired: bool)
        ensures
            fired == timer_fires(old(self).spec_duration(), old(self).spec_elapsed(), dt),
            final(self).spec_duration() == old(self).spec_duration(),
            final(self).spec_elapsed() == if fired {
                timer_remainder(old(self).spec_duration(), old(self).spec_elapsed(), dt)
            } else {
                old(self).spec_elapsed() + dt
            },
            final(self).wf(),
    {
        let total = self.elapsed as u64 + dt as u64;
        if total >= self.duration as u64 {
            if self.duration == 0 {
                self.elapsed = 0;
            } else {
                self.elapsed = (total % self.duration as u64) as u32;
            }
            true
        } else {
            self.elapsed = total as u32;
            false
        }
    }
}

/// The timer that paces hazard spawning.
#[derive(Clone, Copy, Debug, PartialEq, Eq, Structural)]
pub struct ObstacleSpawnTimer {
    pub timer: SpawnTimer,
}

impl Default for ObstacleSpawnTimer {
    fn default() -> (r: ObstacleSpawnTimer)
        ensures
            r.timer.spec_duration() == 2 * SECOND,
            r.timer.spec_elapsed() == 0,
    {
        ObstacleSpawnTimer { timer: SpawnTimer::new(2 * SECOND) }
    }
}

impl ObstacleSpawnTimer {
    /// A spawn timer that fires every `duration` milliseconds.
    pub fn new(duration: u32) -> (r: ObstacleSpawnTimer)
        ensures
            r.timer.spec_duration() == duration,
            r.timer.spec_elapsed() == 0,
    {
        ObstacleSpawnTimer { timer: SpawnTimer::new(duration) }
    }
}

} // verus!
