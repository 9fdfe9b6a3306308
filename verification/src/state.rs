//! The running state of the timer: the active period, the time elapsed in
//! it, the pause and finished flags, and the count of short breaks completed
//! since the last long break. It acts as the model that a surrounding
//! program polls to present remaining time and to decide when to cycle.
use vstd::prelude::*;

use crate::settings::Settings;
use crate::tomata::Period;

verus! {

/// Once no more than this many seconds remain, the period counts as about
/// to end and the period-ending sound may be requested.
pub const PERIOD_ENDING_WINDOW_S: u64 = 5;

#[derive(Debug, Clone, PartialEq, Eq, Structural)]
pub struct TomataState {
    pub settings: Settings,
    /// Seconds elapsed within the current period; reset to zero whenever a
    /// period is (re)activated.
    pub elapsed_time: u64,
    pub current_period: Period,
    pub stopwatch_is_paused: bool,
    /// Whether the elapsed time had reached the period's duration when the
    /// flag was last recomputed: on every elapsed-time increase, and reset
    /// on every activation.
    pub period_is_finished: bool,
    /// Short breaks completed since the last long break (or since start).
    pub short_breaks_finished: usize,
}

impl TomataState {
    /// A freshly constructed state around `settings`: at the start of a work
    /// period, paused, nothing elapsed and nothing finished.
    pub open spec fn initial_spec(settings: Settings) -> TomataState {
        TomataState {
            settings,
            elapsed_time: 0,
            current_period: Period::Work,
            stopwatch_is_paused: true,
            period_is_finished: false,
            short_breaks_finished: 0,
        }
    }

    /// `self` after `activate_period(period)`: the elapsed time and the
    /// finished flag are reset, and the pause flag follows the auto-start
    /// toggle of the settings.
    pub open spec fn activated_spec(self, period: Period) -> TomataState {
        TomataState {
            settings: self.settings,
            elapsed_time: 0,
            current_period: period,
            stopwatch_is_paused: !self.settings.next_period_starts_automatically,
            period_is_finished: false,
            short_breaks_finished: self.short_breaks_finished,
        }
    }

    /// `self` after `cycle_to_next_period()`. From a work period the gating
    /// policy picks the break: a long break once the configured number of
    /// short breaks is completed and long breaks are enabled at all, else a
    /// short break if any are configured, else work starts over. A finished
    /// short break bumps the counter; a finished long break resets it.
    pub open spec fn cycled_spec(self) -> TomataState {
        match self.current_period {
            Period::Work => {
                if self.short_breaks_finished == self.settings.short_breaks_number
                    && self.settings.long_breaks_are_included {
                    self.activated_spec(Period::LongBreak)
                } else if self.settings.short_breaks_number > 0 {
                    self.activated_spec(Period::ShortBreak)
                } else {
                    self.activated_spec(Period::Work)
                }
            },
            Period::ShortBreak => TomataState {
                short_breaks_finished: (self.short_breaks_finished + 1) as usize,
                ..self
            }.activated_spec(Period::Work),
            Period::LongBreak => TomataState {
                short_breaks_finished: 0,
                ..self
            }.activated_spec(Period::Work),
        }
    }

    /// `self` after `n` consecutive calls of `cycle_to_next_period()`.
    pub open spec fn cycled_times_spec(self, n: nat) -> TomataState
        decreases n,
    {
        if n == 0 {
            self
        } else {
            self.cycled_times_spec((n - 1) as nat).cycled_spec()
        }
    }

    /// `self` after `pause_stopwatch()`.
    pub open spec fn paused_spec(self) -> TomataState {
        TomataState { stopwatch_is_paused: true, ..self }
    }

    /// `self` after `start_stopwatch()`.
    pub open spec fn started_spec(self) -> TomataState {
        TomataState { stopwatch_is_paused: false, ..self }
    }

    /// The seconds left in the current period, saturating at zero.
    pub open spec fn remaining_time_spec(self) -> u64 {
        if self.elapsed_time >= self.settings.duration_of(self.current_period) {
            0u64
        } else {
            (self.settings.duration_of(self.current_period) - self.elapsed_time) as u64
        }
    }

    pub fn new(settings: Settings) -> (state: TomataState)
        ensures
            state == TomataState::initial_spec(settings),
    {
        TomataState {
            settings,
            elapsed_time: 0,
            current_period: Period::Work,
            stopwatch_is_paused: true,
            period_is_finished: false,
            short_breaks_finished: 0,
        }
    }

    pub fn is_stopwatch_paused(&self) -> (b: bool)
        ensures
            b == self.stopwatch_is_paused,
    {
        self.stopwatch_is_paused
    }

    pub fn is_period_finished(&self) -> (b: bool)
        ensures
            b == self.period_is_finished,
    {
        self.period_is_finished
    }

    /// Unpauses the stopwatch; a no-op when it is already running.
    pub fn start_stopwatch(&mut self)
        ensures
            *final(self) == old(self).started_spec(),
            !final(self).stopwatch_is_paused,
    {
        self.stopwatch_is_paused = false;
    }

    /// Pauses the stopwatch; a no-op when it is already paused.
    pub fn pause_stopwatch(&mut self)
        ensures
            *final(self) == old(self).paused_spec(),
            final(self).stopwatch_is_paused,
    {
        self.stopwatch_is_paused = true;
    }

    /// Restarts the current period from zero without changing which period
    /// is active.
    pub fn reset_stopwatch(&mut self)
        ensures
            *final(self) == old(self).activated_spec(old(self).current_period),
    {
        let period = self.current_period;
        self.activate_period(period);
    }

    /// Moves to the next period once the current one has finished, per the
    /// gating policy described at [`TomataState::cycled_spec`].
    pub fn cycle_to_next_period(&mut self)
        requires
            old(self).current_period is ShortBreak ==> old(self).short_breaks_finished
                < usize::MAX,
        ensures
            *final(self) == old(self).cycled_spec(),
    {
        match self.current_period {
            Period::Work => {
                if self.is_long_break_next() {
                    self.activate_period(Period::LongBreak);
                } else if self.settings.short_breaks_number > 0 {
                    self.activate_period(Period::ShortBreak);
                } else {
                    self.activate_period(Period::Work);
                }
            },
            Period::ShortBreak => {
                self.short_breaks_finished = self.short_breaks_finished + 1;
                self.activate_period(Period::Work);
            },
            Period::LongBreak => {
                self.short_breaks_finished = 0;
                self.activate_period(Period::Work);
            },
        }
    }

    /// The single choke point for entering any period: an unconditional
    /// reset of the elapsed time and the finished flag, with the pause flag
    /// set from the auto-start toggle. The surrounding program is expected
    /// to signal its notification collaborator after every activation.
    pub fn activate_period(&mut self, period: Period)
        ensures
            *final(self) == old(self).activated_spec(period),
            final(self).current_period == period,
            final(self).elapsed_time == 0,
            final(self).period_is_finished == false,
    {
        self.current_period = period;
        self.period_is_finished = false;
        self.elapsed_time = 0;
        if self.settings.next_period_starts_automatically {
            self.stopwatch_is_paused = false;
        } else {
            self.stopwatch_is_paused = true;
        }
    }

    /// Advances the elapsed time by `value` seconds and recomputes the
    /// finished flag in the same step, in both directions: afterwards the
    /// flag reads true exactly when the elapsed time has reached the
    /// period's duration, so no observer sees a stale combination of the
    /// two, even after the duration was adjusted mid-period.
    pub fn increase_elapsed_time(&mut self, value: u64)
        requires
            old(self).elapsed_time + value <= u64::MAX,
        ensures
            final(self).elapsed_time == old(self).elapsed_time + value,
            final(self).period_is_finished == (old(self).elapsed_time + value >= old(
                self,
            ).settings.duration_of(old(self).current_period)),
            final(self).settings == old(self).settings,
            final(self).current_period == old(self).current_period,
            final(self).stopwatch_is_paused == old(self).stopwatch_is_paused,
            final(self).short_breaks_finished == old(self).short_breaks_finished,
    {
        self.elapsed_time = self.elapsed_time + value;
        let period_duration = self.settings.convert_period_to_duration(self.current_period);
        self.period_is_finished = period_duration <= self.elapsed_time;
    }

    /// The seconds left in the current period: never negative, and exactly
    /// zero whenever the elapsed time has reached the period's duration.
    pub fn calculate_remaining_time(&self) -> (remaining: u64)
        ensures
            remaining == self.remaining_time_spec(),
            (remaining == 0) <==> self.elapsed_time >= self.settings.duration_of(
                self.current_period,
            ),
    {
        let period_duration = self.settings.convert_period_to_duration(self.current_period);
        if period_duration <= self.elapsed_time {
            return 0;
        }
        period_duration - self.elapsed_time
    }

    /// Whether the current period is within its final
    /// [`PERIOD_ENDING_WINDOW_S`] seconds, when the ending sound may be
    /// requested.
    pub fn is_period_finishing(&self) -> (b: bool)
        ensures
            b == (self.remaining_time_spec() <= PERIOD_ENDING_WINDOW_S),
    {
        self.calculate_remaining_time() <= PERIOD_ENDING_WINDOW_S
    }

    fn is_long_break_next(&self) -> (b: bool)
        ensures
            b == (self.short_breaks_finished == self.settings.short_breaks_number
                && self.settings.long_breaks_are_included),
    {
        self.short_breaks_finished == self.settings.get_short_breaks_number()
            && self.settings.are_long_breaks_included()
    }
}

/// Pausing is idempotent: pausing a state that was just paused leaves it
/// exactly as the first pause did.
pub proof fn lemma_pause_idempotent(s: TomataState)
    ensures
        s.paused_spec().paused_spec() == s.paused_spec(),
{
}

/// Starting is idempotent: starting a state that was just started leaves it
/// exactly as the first start did.
pub proof fn lemma_start_idempotent(s: TomataState)
    ensures
        s.started_spec().started_spec() == s.started_spec(),
{
}

/// The cycle law for two configured short breaks with long breaks enabled:
/// from a fresh work period, consecutive cycles visit short break, work,
/// short break, work, long break, and work again, with the short-break
/// counter reading one after the first completed short break and zero again
/// once the long break completes.
pub proof fn lemma_cycle_sequence_two_short_breaks(s: TomataState)
    requires
        s.current_period is Work,
        s.short_breaks_finished == 0,
        s.settings.short_breaks_number == 2,
        s.settings.long_breaks_are_included,
    ensures
        s.cycled_times_spec(1).current_period is ShortBreak,
        s.cycled_times_spec(2).current_period is Work,
        s.cycled_times_spec(2).short_breaks_finished == 1,
        s.cycled_times_spec(3).current_period is ShortBreak,
        s.cycled_times_spec(4).current_period is Work,
        s.cycled_times_spec(4).short_breaks_finished == 2,
        s.cycled_times_spec(5).current_period is LongBreak,
        s.cycled_times_spec(6).current_period is Work,
        s.cycled_times_spec(6).short_breaks_finished == 0,
{
    assert(s.cycled_times_spec(0) == s);
    assert(s.cycled_times_spec(1) == s.cycled_spec());
    assert(s.cycled_times_spec(2) == s.cycled_times_spec(1).cycled_spec());
    assert(s.cycled_times_spec(3) == s.cycled_times_spec(2).cycled_spec());
    assert(s.cycled_times_spec(4) == s.cycled_times_spec(3).cycled_spec());
    assert(s.cycled_times_spec(5) == s.cycled_times_spec(4).cycled_spec());
    assert(s.cycled_times_spec(6) == s.cycled_times_spec(5).cycled_spec());
}

/// The degenerate case with no short breaks configured: with the counter
/// and the configured count both zero and long breaks enabled, a finished
/// work period cycles straight to a long break.
pub proof fn lemma_cycle_no_short_breaks_goes_long(s: TomataState)
    requires
        s.current_period is Work,
        s.short_breaks_finished == 0,
        s.settings.short_breaks_number == 0,
        s.settings.long_breaks_are_included,
    ensures
        s.cycled_spec().current_period is LongBreak,
{
}

impl Default for TomataState {
    fn default() -> (state: TomataState)
        ensures
            state == TomataState::initial_spec(Settings::default_spec()),
    {
        TomataState::new(Settings::default())
    }
}

} // verus!
