//! A stopwatch on the monotonic clock.

use crate::outside::{instant_now, time_between, whole_micros, whole_millis};
use std::time::{Duration, Instant};
use vstd::prelude::*;

verus! {

pub struct Timer {
    start_point: Instant,
}

impl Timer {
    /// A timer that starts now.
    pub fn new() -> Self {
        Timer { start_point: instant_now() }
    }

    /// The time since the timer started.
    pub fn elapsed(&self) -> Duration {
        let now = instant_now();
        time_between(&now, &self.start_point)
    }

    /// The whole milliseconds since the timer started.
    pub fn elapsed_as_millis(&self) -> u128 {
        let elapsed = self.elapsed();
        whole_millis(&elapsed)
    }

    /// The whole microseconds since the timer started.
    pub fn elapsed_as_micros(&self) -> u128 {
        let elapsed = self.elapsed();
        whole_micros(&elapsed)
    }
}

} // verus!
