//! The simulation clock: elapsed ticks, run-length budget, and pacing.

use vstd::prelude::*;

verus! {

/// Tracks elapsed ticks, the configured tick budget, the world bounds,
/// and the advisory pacing delay between ticks. The clock never sleeps
/// itself: the external driver owns the waiting.
pub struct Physics {
    /// Ticks elapsed so far; starts at 0 and only ever grows, by exactly
    /// 1 per advance.
    pub tick_count: u128,
    /// The run-length budget: the driver must stop advancing once
    /// `tick_count` reaches this.
    pub ticks_max: usize,
    /// Smallest world x coordinate.
    pub min_x: isize,
    /// Largest world x coordinate.
    pub max_x: isize,
    /// Smallest world y coordinate.
    pub min_y: isize,
    /// Largest world y coordinate.
    pub max_y: isize,
    /// Advisory wall-clock delay, in milliseconds, that the driver waits
    /// after each tick.
    pub tick_post_sleep_ms: u64,
}

impl Physics {
    /// A fresh clock: zero elapsed ticks, a budget of 2000 ticks, 150 ms
    /// pacing, and world bounds -100..100 on both axes.
    pub fn new() -> (r: Self)
        ensures
            r == (Physics {
                tick_count: 0u128,
                ticks_max: 2000usize,
                min_x: -100isize,
                max_x: 100isize,
                min_y: -100isize,
                max_y: 100isize,
                tick_post_sleep_ms: 150u64,
            }),
    {
        Self {
            tick_count: 0,
            ticks_max: 2000,
            tick_post_sleep_ms: 150,
            min_x: -100,
            max_x: 100,
            min_y: -100,
            max_y: 100,
        }
    }

    /// Advances the clock by exactly one tick; everything else is kept.
    pub fn tick_physics(&mut self)
        requires
            old(self).tick_count < u128::MAX,
        ensures
            final(self).tick_count == old(self).tick_count + 1,
            final(self).ticks_max == old(self).ticks_max,
            final(self).min_x == old(self).min_x,
            final(self).max_x == old(self).max_x,
            final(self).min_y == old(self).min_y,
            final(self).max_y == old(self).max_y,
            final(self).tick_post_sleep_ms == old(self).tick_post_sleep_ms,
    {
        self.tick_count = self.tick_count + 1;
    }

    /// Whether the tick counter has reached the configured budget; the
    /// driver stops advancing once this holds. Pure query.
    pub fn is_exhausted(&self) -> (r: bool)
        ensures
            r == (self.tick_count >= self.ticks_max as u128),
    {
        self.tick_count >= self.ticks_max as u128
    }
}

} // verus!
