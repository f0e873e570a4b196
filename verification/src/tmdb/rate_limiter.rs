//! Single-tier request pacing for the metadata service.

use vstd::prelude::*;

use crate::syoboi::rate_limiter::spacing_wait;

verus! {

/// Spacing between requests unless set otherwise: 25 milliseconds, in
/// nanoseconds.
pub const DEFAULT_MIN_INTERVAL: u64 = 25_000_000;

/// The two phases of one acquisition, in order.
#[derive(Debug, Clone, Copy, PartialEq, Eq, Structural)]
pub enum SpacingPhase {
    /// Wait out the spacing since the last request.
    Spacing,
    /// Record the request.
    Record,
}

/// What the caller does after one phase: sleep for `delay` nanoseconds,
/// then go on with `next`; the acquisition is over where `next` is `None`.
#[derive(Debug, Clone, Copy, PartialEq, Eq, Structural)]
pub struct SpacingStep {
    /// Nanoseconds to sleep before the next phase.
    pub delay: u64,
    /// The phase that follows, if any.
    pub next: Option<SpacingPhase>,
}

/// Keeps a minimum spacing between requests. Instants are nanoseconds of
/// the caller's monotonic clock.
#[derive(Debug, Clone, Copy, PartialEq, Eq, Structural)]
pub struct TmdbRateLimiter {
    /// Least nanoseconds between two requests.
    pub min_interval: u64,
    /// Instant of the last request granted.
    pub last_request: Option<u64>,
}

impl TmdbRateLimiter {
    /// Builds a limiter that has granted nothing yet. `min_interval` is in
    /// nanoseconds.
    pub fn new(min_interval: u64) -> (limiter: Self)
        ensures
            limiter == (TmdbRateLimiter { min_interval, last_request: None }),
    {
        TmdbRateLimiter { min_interval, last_request: None }
    }

    /// Builds a limiter with the default spacing of 25 milliseconds.
    pub fn default_interval() -> (limiter: Self)
        ensures
            limiter == (TmdbRateLimiter { min_interval: DEFAULT_MIN_INTERVAL, last_request: None }),
    {
        TmdbRateLimiter::new(DEFAULT_MIN_INTERVAL)
    }

    /// Runs one phase of an acquisition at the clock sample `now`. The
    /// spacing phase says how long to sleep so that `min_interval` lies
    /// between the last request and this one; the record phase, run with a
    /// fresh sample after that sleep, records the request.
    pub fn wait(&mut self, phase: SpacingPhase, now: u64) -> (step: SpacingStep)
        ensures
            final(self).min_interval == old(self).min_interval,
            match phase {
                SpacingPhase::Spacing => *final(self) == *old(self) && step.delay == spacing_wait(
                    old(self).last_request,
                    old(self).min_interval,
                    now,
                ) && step.next == Some(SpacingPhase::Record),
                SpacingPhase::Record => final(self).last_request == Some(now) && step.delay == 0
                    && step.next is None,
            },
    {
        match phase {
            SpacingPhase::Spacing => {
                let delay = match self.last_request {
                    None => 0,
                    Some(last) => {
                        let elapsed = now.saturating_sub(last);
                        if elapsed < self.min_interval {
                            self.min_interval - elapsed
                        } else {
                            0
                        }
                    },
                };
                SpacingStep { delay, next: Some(SpacingPhase::Record) }
            },
            SpacingPhase::Record => {
                self.last_request = Some(now);
                SpacingStep { delay: 0, next: None }
            },
        }
    }
}

} // verus!
