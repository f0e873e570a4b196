//! Three-tier request pacing for the schedule service: a minimum spacing
//! between requests, and a cap on the requests of any hour and of any day.
//!
//! The limiter keeps no clock and never sleeps. The caller samples a
//! monotonic clock, in nanoseconds since an origin of its choice, hands the
//! sample to [`SyoboiRateLimiter::wait`], sleeps for the delay that comes
//! back and goes on with the next phase, with a fresh sample each time.

use std::collections::VecDeque;
use vstd::prelude::*;

verus! {

/// One second in nanoseconds.
pub const SECOND_NANOS: u64 = 1_000_000_000;

/// One hour in nanoseconds.
pub const HOUR_NANOS: u64 = 3_600_000_000_000;

/// One day in nanoseconds.
pub const DAY_NANOS: u64 = 86_400_000_000_000;

/// The phases of one acquisition, in order.
#[derive(Debug, Clone, Copy, PartialEq, Eq, Structural)]
pub enum WaitPhase {
    /// Purge the windows and wait out the spacing since the last request.
    Spacing,
    /// Wait while the hourly window is at its cap.
    Hourly,
    /// Wait while the daily window is at its cap.
    Daily,
    /// Record the request.
    Record,
}

/// What the caller does after one phase: sleep for `delay` nanoseconds,
/// then go on with `next`; the acquisition is over where `next` is `None`.
#[derive(Debug, Clone, Copy, PartialEq, Eq, Structural)]
pub struct WaitStep {
    /// Nanoseconds to sleep before the next phase.
    pub delay: u64,
    /// The phase that follows, if any.
    pub next: Option<WaitPhase>,
}

/// The state of a limiter as contracts see it. Instants are nanoseconds of
/// the caller's clock.
pub struct LimiterView {
    /// Least time between two requests.
    pub min_interval: u64,
    /// Instant of the last request granted.
    pub last_request: Option<u64>,
    /// Most requests in any hour.
    pub hourly_limit: usize,
    /// Most requests in any day.
    pub daily_limit: usize,
    /// Instants of the requests of the last hour, oldest first.
    pub hourly_window: Seq<u64>,
    /// Instants of the requests of the last day, oldest first.
    pub daily_window: Seq<u64>,
}

/// Paces requests on three tiers: spacing, hourly cap, daily cap.
#[derive(Debug)]
pub struct SyoboiRateLimiter {
    min_interval: u64,
    last_request: Option<u64>,
    hourly_limit: usize,
    daily_limit: usize,
    hourly_window: VecDeque<u64>,
    daily_window: VecDeque<u64>,
}

/// `window` without its leading entries that are older than `span` at
/// `now`. Purging stops at the first entry that is not.
pub open spec fn purged(window: Seq<u64>, now: int, span: int) -> Seq<u64>
    decreases window.len(),
{
    if window.len() > 0 && window[0] + span < now {
        purged(window.drop_first(), now, span)
    } else {
        window
    }
}

/// Time still to wait at `now` so that `min_interval` lies between the
/// last request and the next.
pub open spec fn spacing_wait(last_request: Option<u64>, min_interval: u64, now: u64) -> int {
    match last_request {
        None => 0,
        Some(last) => {
            let elapsed = if now >= last {
                now - last
            } else {
                0
            };
            if elapsed < min_interval {
                min_interval - elapsed
            } else {
                0
            }
        },
    }
}

/// Time still to wait at `now` until the oldest entry of a window at its
/// cap is `span` old; nothing where the window is below its cap. The
/// instant waited for is cut at the end of `u64`.
pub open spec fn window_wait(window: Seq<u64>, limit: usize, span: u64, now: u64) -> int {
    if window.len() >= limit && window.len() > 0 {
        let until = if window[0] + span <= u64::MAX {
            window[0] + span
        } else {
            u64::MAX as int
        };
        if now < until {
            until - now
        } else {
            0
        }
    } else {
        0
    }
}

/// Number of entries of `window` that are newer than `span` at `now`.
pub open spec fn newer_count(window: Seq<u64>, now: int, span: int) -> nat
    decreases window.len(),
{
    if window.len() == 0 {
        0
    } else {
        newer_count(window.drop_last(), now, span) + if window.last() + span > now {
            1nat
        } else {
            0nat
        }
    }
}

/// The state after `phase` at the sample `now`.
pub open spec fn state_after(state: LimiterView, phase: WaitPhase, now: u64) -> LimiterView {
    match phase {
        WaitPhase::Spacing => LimiterView {
            hourly_window: purged(state.hourly_window, now as int, HOUR_NANOS as int),
            daily_window: purged(state.daily_window, now as int, DAY_NANOS as int),
            ..state
        },
        WaitPhase::Hourly => state,
        WaitPhase::Daily => state,
        WaitPhase::Record => LimiterView {
            last_request: Some(now),
            hourly_window: state.hourly_window.push(now),
            daily_window: state.daily_window.push(now),
            ..state
        },
    }
}

/// The delay that `phase` asks for at the sample `now`.
pub open spec fn delay_of(state: LimiterView, phase: WaitPhase, now: u64) -> int {
    match phase {
        WaitPhase::Spacing => spacing_wait(state.last_request, state.min_interval, now),
        WaitPhase::Hourly => window_wait(state.hourly_window, state.hourly_limit, HOUR_NANOS, now),
        WaitPhase::Daily => window_wait(state.daily_window, state.daily_limit, DAY_NANOS, now),
        WaitPhase::Record => 0,
    }
}

/// The phase that follows `phase`.
pub open spec fn phase_after(phase: WaitPhase) -> Option<WaitPhase> {
    match phase {
        WaitPhase::Spacing => Some(WaitPhase::Hourly),
        WaitPhase::Hourly => Some(WaitPhase::Daily),
        WaitPhase::Daily => Some(WaitPhase::Record),
        WaitPhase::Record => None,
    }
}

impl View for SyoboiRateLimiter {
    type V = LimiterView;

    closed spec fn view(&self) -> LimiterView {
        LimiterView {
            min_interval: self.min_interval,
            last_request: self.last_request,
            hourly_limit: self.hourly_limit,
            daily_limit: self.daily_limit,
            hourly_window: self.hourly_window@,
            daily_window: self.daily_window@,
        }
    }
}

/// Drops the leading entries of `window` that are older than `span` at
/// `now`.
fn purge(window: &mut VecDeque<u64>, now: u64, span: u64)
    ensures
        final(window)@ == purged(old(window)@, now as int, span as int),
{
    if now < span {
        return ;
    }
    let cutoff = now - span;
    while window.len() > 0 && window[0] < cutoff
        invariant
            cutoff == now - span,
            purged(window@, now as int, span as int) == purged(
                old(window)@,
                now as int,
                span as int,
            ),
        decreases window.len(),
    {
        let ghost before = window@;
        window.pop_front();
        proof {
            assert(window@ == before.drop_first());
        }
    }
}

/// Time still to wait until the oldest entry of a window at its cap is
/// `span` old.
fn wait_for_window(window: &VecDeque<u64>, limit: usize, span: u64, now: u64) -> (delay: u64)
    ensures
        delay == window_wait(window@, limit, span, now),
{
    if window.len() >= limit && window.len() > 0 {
        let until = window[0].saturating_add(span);
        if now < until {
            until - now
        } else {
            0
        }
    } else {
        0
    }
}

impl SyoboiRateLimiter {
    /// Builds a limiter that has granted nothing yet. `min_interval` is in
    /// nanoseconds.
    pub fn new(min_interval: u64, hourly_limit: usize, daily_limit: usize) -> (limiter: Self)
        ensures
            limiter@ == (LimiterView {
                min_interval,
                last_request: None,
                hourly_limit,
                daily_limit,
                hourly_window: Seq::empty(),
                daily_window: Seq::empty(),
            }),
    {
        SyoboiRateLimiter {
            min_interval,
            last_request: None,
            hourly_limit,
            daily_limit,
            hourly_window: VecDeque::new(),
            daily_window: VecDeque::new(),
        }
    }

    /// Drops from both windows the leading entries that are older than an
    /// hour, and a day, at `now`.
    pub fn cleanup_windows(&mut self, now: u64)
        ensures
            final(self)@ == state_after(old(self)@, WaitPhase::Spacing, now),
    {
        purge(&mut self.hourly_window, now, HOUR_NANOS);
        purge(&mut self.daily_window, now, DAY_NANOS);
    }

    /// Runs one phase of an acquisition at the clock sample `now` and says
    /// how long to sleep and which phase follows. The phases are run in
    /// order, each with a fresh sample taken after the sleep of the one
    /// before; the request may be issued once `Record` has run.
    pub fn wait(&mut self, phase: WaitPhase, now: u64) -> (step: WaitStep)
        ensures
            final(self)@ == state_after(old(self)@, phase, now),
            step.delay == delay_of(final(self)@, phase, now),
            step.next == phase_after(phase),
    {
        match phase {
            WaitPhase::Spacing => {
                self.cleanup_windows(now);
                let delay = match self.last_request {
                    None => 0,
                    Some(last) => {
                        let elapsed = now.saturating_sub(last);
                        if elapsed < self.min_interval {
                            self.min_interval - elapsed
                        } else {
                            0
                        }
                    },
                };
                WaitStep { delay, next: Some(WaitPhase::Hourly) }
            },
            WaitPhase::Hourly => WaitStep {
                delay: wait_for_window(&self.hourly_window, self.hourly_limit, HOUR_NANOS, now),
                next: Some(WaitPhase::Daily),
            },
            WaitPhase::Daily => WaitStep {
                delay: wait_for_window(&self.daily_window, self.daily_limit, DAY_NANOS, now),
                next: Some(WaitPhase::Record),
            },
            WaitPhase::Record => {
                self.last_request = Some(now);
                self.hourly_window.push_back(now);
                self.daily_window.push_back(now);
                WaitStep { delay: 0, next: None }
            },
        }
    }

    /// Least time between two requests, in nanoseconds.
    pub fn min_interval(&self) -> (nanos: u64)
        ensures
            nanos == self@.min_interval,
    {
        self.min_interval
    }

    /// Instant of the last request granted.
    pub fn last_request(&self) -> (instant: Option<u64>)
        ensures
            instant == self@.last_request,
    {
        self.last_request
    }

    /// Number of entries in the hourly window.
    pub fn hourly_count(&self) -> (count: usize)
        ensures
            count == self@.hourly_window.len(),
    {
        self.hourly_window.len()
    }

    /// Number of entries in the daily window.
    pub fn daily_count(&self) -> (count: usize)
        ensures
            count == self@.daily_window.len(),
    {
        self.daily_window.len()
    }
}

/// Spacing of two requests: where the clock does not run backwards and the
/// caller sleeps at least as long as the spacing phase asks, a request is
/// granted no sooner than `min_interval` after the one before.
pub proof fn lemma_spacing_between_requests(
    last: u64,
    min_interval: u64,
    sampled: u64,
    granted: u64,
)
    requires
        last <= sampled,
        sampled + spacing_wait(Some(last), min_interval, sampled) <= granted,
    ensures
        granted - last >= min_interval,
{
}

/// A window has no more entries newer than `span` than it has entries.
pub proof fn lemma_newer_count_bounded(window: Seq<u64>, now: int, span: int)
    ensures
        newer_count(window, now, span) <= window.len(),
    decreases window.len(),
{
    if window.len() > 0 {
        lemma_newer_count_bounded(window.drop_last(), now, span);
    }
}

/// An entry that is not newer than `span` is not counted: a window whose
/// first entry is `span` old or older has fewer newer entries than entries.
pub proof fn lemma_newer_count_skips_old_front(window: Seq<u64>, now: int, span: int)
    requires
        window.len() > 0,
        window[0] + span <= now,
    ensures
        newer_count(window, now, span) <= window.len() - 1,
    decreases window.len(),
{
    if window.len() > 1 {
        assert(window.drop_last()[0] == window[0]);
        lemma_newer_count_skips_old_front(window.drop_last(), now, span);
    } else {
        assert(window.last() == window[0]);
        assert(newer_count(window.drop_last(), now, span) == 0);
    }
}

/// Window cap of one acquisition, for a window that came out of the purge
/// with no more entries than its cap, under a cap of at least one. `window`
/// is the window after the purge, `sampled` the instant at which the cap
/// phase ran and `granted` the instant that was recorded. Where the caller
/// slept at least as long as the cap phase asked, the window after the
/// record holds no more than `limit` entries newer than `span`.
pub proof fn lemma_window_cap_after_record(
    window: Seq<u64>,
    limit: usize,
    span: u64,
    sampled: u64,
    granted: u64,
)
    requires
        limit >= 1,
        window.len() <= limit,
        window.len() > 0 ==> window[0] + span <= u64::MAX,
        sampled + window_wait(window, limit, span, sampled) <= granted,
    ensures
        newer_count(window.push(granted), granted as int, span as int) <= limit,
{
    let after = window.push(granted);
    assert(after.drop_last() == window);
    if window.len() < limit {
        lemma_newer_count_bounded(window, granted as int, span as int);
    } else {
        lemma_newer_count_skips_old_front(window, granted as int, span as int);
    }
}

/// The state after one whole acquisition whose four phases ran at the four
/// clock samples given.
pub open spec fn acquired(
    state: LimiterView,
    spacing_at: u64,
    hourly_at: u64,
    daily_at: u64,
    recorded_at: u64,
) -> LimiterView {
    state_after(
        state_after(
            state_after(state_after(state, WaitPhase::Spacing, spacing_at), WaitPhase::Hourly, hourly_at),
            WaitPhase::Daily,
            daily_at,
        ),
        WaitPhase::Record,
        recorded_at,
    )
}

/// Whether the caller of an acquisition slept through the delay of each
/// phase before it sampled the clock for the next.
pub open spec fn waited_out(
    state: LimiterView,
    spacing_at: u64,
    hourly_at: u64,
    daily_at: u64,
    recorded_at: u64,
) -> bool {
    let purged = state_after(state, WaitPhase::Spacing, spacing_at);
    &&& spacing_at + delay_of(purged, WaitPhase::Spacing, spacing_at) <= hourly_at
    &&& hourly_at + delay_of(purged, WaitPhase::Hourly, hourly_at) <= daily_at
    &&& daily_at + delay_of(purged, WaitPhase::Daily, daily_at) <= recorded_at
}

/// Spacing of an acquisition: where the caller waits out every delay and
/// the clock has not run backwards since the last request, the request is
/// recorded no sooner than `min_interval` after the one before.
pub proof fn lemma_acquisition_keeps_spacing(
    state: LimiterView,
    spacing_at: u64,
    hourly_at: u64,
    daily_at: u64,
    recorded_at: u64,
)
    requires
        waited_out(state, spacing_at, hourly_at, daily_at, recorded_at),
        state.last_request matches Some(last) ==> last <= spacing_at,
    ensures
        acquired(state, spacing_at, hourly_at, daily_at, recorded_at).last_request == Some(
            recorded_at,
        ),
        state.last_request matches Some(last) ==> recorded_at - last >= state.min_interval,
{
    let purged = state_after(state, WaitPhase::Spacing, spacing_at);
    assert(delay_of(purged, WaitPhase::Hourly, hourly_at) >= 0);
    assert(delay_of(purged, WaitPhase::Daily, daily_at) >= 0);
}

/// The hourly cap of an acquisition, for a cap of at least one and a
/// window that comes out of the purge with no more entries than the cap.
/// Where the caller waits out every delay, the hourly window as recorded
/// holds no more than `hourly_limit` entries newer than an hour.
pub proof fn lemma_acquisition_keeps_hourly_cap(
    state: LimiterView,
    spacing_at: u64,
    hourly_at: u64,
    daily_at: u64,
    recorded_at: u64,
)
    requires
        waited_out(state, spacing_at, hourly_at, daily_at, recorded_at),
        state.hourly_limit >= 1,
        purged(state.hourly_window, spacing_at as int, HOUR_NANOS as int).len()
            <= state.hourly_limit,
        recorded_at + HOUR_NANOS <= u64::MAX,
        forall|i: int|
            0 <= i < state.hourly_window.len() ==> state.hourly_window[i] <= recorded_at,
    ensures
        newer_count(
            acquired(state, spacing_at, hourly_at, daily_at, recorded_at).hourly_window,
            recorded_at as int,
            HOUR_NANOS as int,
        ) <= state.hourly_limit,
{
    let after_purge = state_after(state, WaitPhase::Spacing, spacing_at);
    lemma_purged_keeps_entries(state.hourly_window, spacing_at as int, HOUR_NANOS as int);
    assert(delay_of(after_purge, WaitPhase::Daily, daily_at) >= 0);
    lemma_window_cap_after_record(
        after_purge.hourly_window,
        state.hourly_limit,
        HOUR_NANOS,
        hourly_at,
        recorded_at,
    );
}

/// The daily cap of an acquisition, for a cap of at least one and a window
/// that comes out of the purge with no more entries than the cap. Where
/// the caller waits out every delay, the daily window as recorded holds no
/// more than `daily_limit` entries newer than a day.
pub proof fn lemma_acquisition_keeps_daily_cap(
    state: LimiterView,
    spacing_at: u64,
    hourly_at: u64,
    daily_at: u64,
    recorded_at: u64,
)
    requires
        waited_out(state, spacing_at, hourly_at, daily_at, recorded_at),
        state.daily_limit >= 1,
        purged(state.daily_window, spacing_at as int, DAY_NANOS as int).len()
            <= state.daily_limit,
        recorded_at + DAY_NANOS <= u64::MAX,
        forall|i: int| 0 <= i < state.daily_window.len() ==> state.daily_window[i] <= recorded_at,
    ensures
        newer_count(
            acquired(state, spacing_at, hourly_at, daily_at, recorded_at).daily_window,
            recorded_at as int,
            DAY_NANOS as int,
        ) <= state.daily_limit,
{
    let after_purge = state_after(state, WaitPhase::Spacing, spacing_at);
    lemma_purged_keeps_entries(state.daily_window, spacing_at as int, DAY_NANOS as int);
    lemma_window_cap_after_record(
        after_purge.daily_window,
        state.daily_limit,
        DAY_NANOS,
        daily_at,
        recorded_at,
    );
}

/// Every entry of a purged window is an entry of the window.
pub proof fn lemma_purged_keeps_entries(window: Seq<u64>, now: int, span: int)
    ensures
        forall|i: int|
            0 <= i < purged(window, now, span).len() ==> exists|j: int|
                0 <= j < window.len() && window[j] == #[trigger] purged(window, now, span)[i],
    decreases window.len(),
{
    if window.len() > 0 && window[0] + span < now {
        lemma_purged_keeps_entries(window.drop_first(), now, span);
        let rest = purged(window.drop_first(), now, span);
        assert forall|i: int| 0 <= i < rest.len() implies exists|j: int|
            0 <= j < window.len() && window[j] == #[trigger] rest[i] by {
            let k = choose|k: int|
                0 <= k < window.drop_first().len() && window.drop_first()[k] == rest[i];
            assert(window[k + 1] == rest[i]);
        }
    } else {
        assert forall|i: int| 0 <= i < window.len() implies exists|j: int|
            0 <= j < window.len() && window[j] == #[trigger] window[i] by {
            assert(window[i] == window[i]);
        }
    }
}

/// The clock samples of one acquisition: one for each phase.
pub struct Acquisition {
    /// Sample of the spacing phase.
    pub spacing_at: u64,
    /// Sample of the hourly phase.
    pub hourly_at: u64,
    /// Sample of the daily phase.
    pub daily_at: u64,
    /// Sample of the record phase: the instant of the request.
    pub recorded_at: u64,
}

/// The state after the acquisitions of `run`, one after another.
pub open spec fn after_run(state: LimiterView, run: Seq<Acquisition>) -> LimiterView
    decreases run.len(),
{
    if run.len() == 0 {
        state
    } else {
        acquired(
            after_run(state, run.drop_last()),
            run.last().spacing_at,
            run.last().hourly_at,
            run.last().daily_at,
            run.last().recorded_at,
        )
    }
}

/// Whether the acquisitions of `run` ran in time: the caller waited out
/// every delay, and the clock had moved on since the request before when
/// an acquisition began.
pub open spec fn ran_in_time(state: LimiterView, run: Seq<Acquisition>) -> bool
    decreases run.len(),
{
    if run.len() == 0 {
        true
    } else {
        let before = after_run(state, run.drop_last());
        &&& ran_in_time(state, run.drop_last())
        &&& waited_out(
            before,
            run.last().spacing_at,
            run.last().hourly_at,
            run.last().daily_at,
            run.last().recorded_at,
        )
        &&& run.last().recorded_at + DAY_NANOS <= u64::MAX
        &&& before.last_request matches Some(last) ==> last < run.last().spacing_at
    }
}

/// Whether a window is settled at its last request: it holds at most one
/// entry over its cap, none later than the last request, and where it is
/// over its cap its oldest entry is `span` old.
pub open spec fn settled(window: Seq<u64>, limit: usize, span: u64, last: Option<u64>) -> bool {
    &&& window.len() <= limit + 1
    &&& window.len() > 0 ==> last is Some && forall|i: int|
        0 <= i < window.len() ==> #[trigger] window[i] <= last->0
    &&& window.len() == limit + 1 ==> window[0] + span <= last->0
}

/// Purging drops entries and adds none.
pub proof fn lemma_purged_shrinks(window: Seq<u64>, now: int, span: int)
    ensures
        purged(window, now, span).len() <= window.len(),
    decreases window.len(),
{
    if window.len() > 0 && window[0] + span < now {
        lemma_purged_shrinks(window.drop_first(), now, span);
    }
}

/// One acquisition keeps a settled window settled and within its cap.
pub proof fn lemma_settled_window_stays_capped(
    window: Seq<u64>,
    limit: usize,
    span: u64,
    last: Option<u64>,
    purged_at: u64,
    sampled: u64,
    granted: u64,
)
    requires
        limit >= 1,
        settled(window, limit, span, last),
        last matches Some(l) ==> l < purged_at,
        purged_at <= sampled,
        sampled + window_wait(
            purged(window, purged_at as int, span as int),
            limit,
            span,
            sampled,
        ) <= granted,
        granted + span <= u64::MAX,
    ensures
        settled(
            purged(window, purged_at as int, span as int).push(granted),
            limit,
            span,
            Some(granted),
        ),
        newer_count(
            purged(window, purged_at as int, span as int).push(granted),
            granted as int,
            span as int,
        ) <= limit,
{
    let kept = purged(window, purged_at as int, span as int);
    let after = kept.push(granted);
    lemma_purged_keeps_entries(window, purged_at as int, span as int);
    if window.len() == limit + 1 {
        lemma_purged_shrinks(window.drop_first(), purged_at as int, span as int);
    } else {
        lemma_purged_shrinks(window, purged_at as int, span as int);
    }
    assert forall|i: int| 0 <= i < kept.len() implies #[trigger] kept[i] <= granted by {
        let j = choose|j: int| 0 <= j < window.len() && window[j] == kept[i];
        assert(window[j] <= last->0);
    }
    assert forall|i: int| 0 <= i < after.len() implies #[trigger] after[i] <= granted by {
        if i < kept.len() {
            assert(after[i] == kept[i]);
        }
    }
    if kept.len() > 0 {
        assert(after[0] == kept[0]);
    }
    lemma_window_cap_after_record(kept, limit, span, sampled, granted);
}

/// A run of acquisitions leaves both caps as they were.
pub proof fn lemma_after_run_limits(state: LimiterView, run: Seq<Acquisition>)
    ensures
        after_run(state, run).hourly_limit == state.hourly_limit,
        after_run(state, run).daily_limit == state.daily_limit,
    decreases run.len(),
{
    if run.len() > 0 {
        lemma_after_run_limits(state, run.drop_last());
    }
}

/// The hourly cap over a run of requests: a limiter that starts with a
/// settled hourly window, as a new limiter does, and an hourly cap of at
/// least one keeps the window within the cap through every run of
/// acquisitions that ran in time. After the last request of the run the
/// hourly window holds no more than `hourly_limit` entries newer than an
/// hour.
pub proof fn lemma_hourly_cap_over_requests(state: LimiterView, run: Seq<Acquisition>)
    requires
        state.hourly_limit >= 1,
        settled(state.hourly_window, state.hourly_limit, HOUR_NANOS, state.last_request),
        ran_in_time(state, run),
    ensures
        settled(
            after_run(state, run).hourly_window,
            state.hourly_limit,
            HOUR_NANOS,
            after_run(state, run).last_request,
        ),
        run.len() > 0 ==> newer_count(
            after_run(state, run).hourly_window,
            run.last().recorded_at as int,
            HOUR_NANOS as int,
        ) <= state.hourly_limit,
    decreases run.len(),
{
    if run.len() > 0 {
        let before = after_run(state, run.drop_last());
        let a = run.last();
        lemma_hourly_cap_over_requests(state, run.drop_last());
        lemma_after_run_limits(state, run.drop_last());
        let kept = state_after(before, WaitPhase::Spacing, a.spacing_at);
        assert(delay_of(kept, WaitPhase::Spacing, a.spacing_at) >= 0);
        assert(delay_of(kept, WaitPhase::Daily, a.daily_at) >= 0);
        lemma_settled_window_stays_capped(
            before.hourly_window,
            state.hourly_limit,
            HOUR_NANOS,
            before.last_request,
            a.spacing_at,
            a.hourly_at,
            a.recorded_at,
        );
    }
}

/// The daily cap over a run of requests: a limiter that starts with a
/// settled daily window, as a new limiter does, and a daily cap of at
/// least one keeps the window within the cap through every run of
/// acquisitions that ran in time. After the last request of the run the
/// daily window holds no more than `daily_limit` entries newer than a day.
pub proof fn lemma_daily_cap_over_requests(state: LimiterView, run: Seq<Acquisition>)
    requires
        state.daily_limit >= 1,
        settled(state.daily_window, state.daily_limit, DAY_NANOS, state.last_request),
        ran_in_time(state, run),
    ensures
        settled(
            after_run(state, run).daily_window,
            state.daily_limit,
            DAY_NANOS,
            after_run(state, run).last_request,
        ),
        run.len() > 0 ==> newer_count(
            after_run(state, run).daily_window,
            run.last().recorded_at as int,
            DAY_NANOS as int,
        ) <= state.daily_limit,
    decreases run.len(),
{
    if run.len() > 0 {
        let before = after_run(state, run.drop_last());
        let a = run.last();
        lemma_daily_cap_over_requests(state, run.drop_last());
        lemma_after_run_limits(state, run.drop_last());
        let kept = state_after(before, WaitPhase::Spacing, a.spacing_at);
        assert(delay_of(kept, WaitPhase::Spacing, a.spacing_at) >= 0);
        assert(delay_of(kept, WaitPhase::Hourly, a.hourly_at) >= 0);
        lemma_settled_window_stays_capped(
            before.daily_window,
            state.daily_limit,
            DAY_NANOS,
            before.last_request,
            a.spacing_at,
            a.daily_at,
            a.recorded_at,
        );
    }
}

/// A run of acquisitions leaves the spacing as it was and the last request
/// at the record of its last acquisition.
pub proof fn lemma_after_run_last_request(state: LimiterView, run: Seq<Acquisition>)
    ensures
        after_run(state, run).min_interval == state.min_interval,
        run.len() > 0 ==> after_run(state, run).last_request == Some(run.last().recorded_at),
    decreases run.len(),
{
    if run.len() > 0 {
        lemma_after_run_last_request(state, run.drop_last());
    }
}

/// Spacing over a run of requests: through every run of N acquisitions
/// that ran in time, the last request is recorded at least
/// `(N - 1) * min_interval` after the first.
pub proof fn lemma_spacing_over_run(state: LimiterView, run: Seq<Acquisition>)
    requires
        run.len() >= 1,
        ran_in_time(state, run),
    ensures
        run.last().recorded_at - run[0].recorded_at >= (run.len() - 1) * state.min_interval,
    decreases run.len(),
{
    let n = run.len() as int;
    if n > 1 {
        let front = run.drop_last();
        lemma_spacing_over_run(state, front);
        lemma_after_run_last_request(state, front);
        let before = after_run(state, front);
        let kept = state_after(before, WaitPhase::Spacing, run.last().spacing_at);
        assert(delay_of(kept, WaitPhase::Hourly, run.last().hourly_at) >= 0);
        assert(delay_of(kept, WaitPhase::Daily, run.last().daily_at) >= 0);
        lemma_spacing_between_requests(
            front.last().recorded_at,
            state.min_interval,
            run.last().spacing_at,
            run.last().recorded_at,
        );
        assert(front.last() == run[n - 2]);
        assert(front[0] == run[0]);
        assert(front.len() - 1 == n - 2);
        assert((n - 1) * state.min_interval == (n - 2) * state.min_interval + state.min_interval)
            by (nonlinear_arith);
    } else {
        assert((n - 1) * state.min_interval == 0) by (nonlinear_arith)
            requires
                n == 1,
        ;
    }
}

} // verus!
