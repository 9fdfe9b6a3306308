//! The user-adjustable configuration of the timer: the three period
//! durations, the short-break policy, and the behavioral toggles.
//!
//! All durations are whole seconds. The beep volume is a fixed-point gain in
//! thousandths of full volume, so the whole record is made of plain integers
//! and booleans; decrease operations clamp at zero instead of underflowing.
use vstd::prelude::*;

use crate::tomata::{Period, MINUTE_S};

verus! {

pub const DEFAULT_WORK_PERIOD_S: u64 = MINUTE_S * 25;

pub const DEFAULT_SHORT_BREAK_PERIOD_S: u64 = MINUTE_S * 5;

pub const DEFAULT_LONG_BREAK_PERIOD_S: u64 = MINUTE_S * 8;

pub const DEFAULT_SHORT_BREAKS_BEFORE_LONG_BREAK: usize = 3;

/// One tenth of full volume, in thousandths.
pub const DEFAULT_BEEP_VOLUME_MILLI: u64 = 100;

/// Represents all the settings for the application. Most of the settings can
/// be changed by the user, and a snapshot of them can be persisted by the
/// surrounding program.
#[derive(Debug, Clone, PartialEq, Eq, Structural)]
pub struct Settings {
    /// Length of a work period, in seconds.
    pub work_period: u64,
    /// Length of a short break, in seconds.
    pub short_break_period: u64,
    /// Length of a long break, in seconds.
    pub long_break_period: u64,
    /// How many short breaks are completed before a long break is inserted.
    pub short_breaks_number: usize,
    pub long_breaks_are_included: bool,
    pub next_period_starts_automatically: bool,
    pub system_notifications_are_enabled: bool,
    pub period_ending_sound_is_enabled: bool,
    /// Gain of the period-ending beep, in thousandths of full volume.
    pub beep_volume: u64,
}

impl Settings {
    /// The settings a fresh installation starts from.
    pub open spec fn default_spec() -> Settings {
        Settings {
            work_period: DEFAULT_WORK_PERIOD_S,
            short_break_period: DEFAULT_SHORT_BREAK_PERIOD_S,
            long_break_period: DEFAULT_LONG_BREAK_PERIOD_S,
            short_breaks_number: DEFAULT_SHORT_BREAKS_BEFORE_LONG_BREAK,
            long_breaks_are_included: true,
            next_period_starts_automatically: false,
            system_notifications_are_enabled: true,
            period_ending_sound_is_enabled: true,
            beep_volume: DEFAULT_BEEP_VOLUME_MILLI,
        }
    }

    /// The configured duration of `period`, in seconds.
    pub open spec fn duration_of(self, period: Period) -> u64 {
        match period {
            Period::Work => self.work_period,
            Period::ShortBreak => self.short_break_period,
            Period::LongBreak => self.long_break_period,
        }
    }

    /// `self` with the duration of `period` replaced by `value`.
    pub open spec fn with_duration(self, period: Period, value: u64) -> Settings {
        match period {
            Period::Work => Settings { work_period: value, ..self },
            Period::ShortBreak => Settings { short_break_period: value, ..self },
            Period::LongBreak => Settings { long_break_period: value, ..self },
        }
    }

    #[allow(clippy::too_many_arguments)]
    pub fn new(
        work_period: u64,
        short_break_period: u64,
        long_break_period: u64,
        short_breaks_number: usize,
        long_breaks_are_included: bool,
        next_period_starts_automatically: bool,
        system_notifications_are_enabled: bool,
        period_ending_sound_is_enabled: bool,
        beep_volume: u64,
    ) -> (s: Settings)
        ensures
            s == (Settings {
                work_period,
                short_break_period,
                long_break_period,
                short_breaks_number,
                long_breaks_are_included,
                next_period_starts_automatically,
                system_notifications_are_enabled,
                period_ending_sound_is_enabled,
                beep_volume,
            }),
    {
        Settings {
            work_period,
            short_break_period,
            long_break_period,
            short_breaks_number,
            long_breaks_are_included,
            next_period_starts_automatically,
            system_notifications_are_enabled,
            period_ending_sound_is_enabled,
            beep_volume,
        }
    }

    /// Lengthens `period` by `value` seconds; there is no upper bound short
    /// of the machine limit.
    pub fn increase_period_duration(&mut self, period: Period, value: u64)
        requires
            old(self).duration_of(period) + value <= u64::MAX,
        ensures
            *final(self) == old(self).with_duration(
                period,
                (old(self).duration_of(period) + value) as u64,
            ),
    {
        match period {
            Period::Work => self.work_period = self.work_period + value,
            Period::ShortBreak => self.short_break_period = self.short_break_period + value,
            Period::LongBreak => self.long_break_period = self.long_break_period + value,
        }
    }

    /// Shortens `period` by `value` seconds, clamping at zero: a decrement
    /// larger than the current duration leaves zero, never an underflow.
    pub fn decrease_period_duration(&mut self, period: Period, value: u64)
        ensures
            *final(self) == old(self).with_duration(
                period,
                if value > old(self).duration_of(period) {
                    0u64
                } else {
                    (old(self).duration_of(period) - value) as u64
                },
            ),
    {
        match period {
            Period::Work => {
                if value > self.work_period {
                    self.work_period = 0;
                } else {
                    self.work_period = self.work_period - value;
                }
            },
            Period::ShortBreak => {
                if value > self.short_break_period {
                    self.short_break_period = 0;
                } else {
                    self.short_break_period = self.short_break_period - value;
                }
            },
            Period::LongBreak => {
                if value > self.long_break_period {
                    self.long_break_period = 0;
                } else {
                    self.long_break_period = self.long_break_period - value;
                }
            },
        }
    }

    pub fn get_short_breaks_number(&self) -> (n: usize)
        ensures
            n == self.short_breaks_number,
    {
        self.short_breaks_number
    }

    /// Raises the short-break count; there is no upper bound short of the
    /// machine limit.
    pub fn increase_short_breaks_number(&mut self, value: usize)
        requires
            old(self).short_breaks_number + value <= usize::MAX,
        ensures
            *final(self) == (Settings {
                short_breaks_number: (old(self).short_breaks_number + value) as usize,
                ..*old(self)
            }),
    {
        self.short_breaks_number = self.short_breaks_number + value;
    }

    /// Lowers the short-break count, clamping at zero: a decrement larger
    /// than the current count leaves zero.
    pub fn decrease_short_breaks_number(&mut self, value: usize)
        ensures
            *final(self) == (Settings {
                short_breaks_number: if value > old(self).short_breaks_number {
                    0usize
                } else {
                    (old(self).short_breaks_number - value) as usize
                },
                ..*old(self)
            }),
    {
        if value > self.short_breaks_number {
            self.short_breaks_number = 0;
            return ;
        }
        self.short_breaks_number = self.short_breaks_number - value;
    }

    pub fn are_long_breaks_included(&self) -> (b: bool)
        ensures
            b == self.long_breaks_are_included,
    {
        self.long_breaks_are_included
    }

    pub fn does_next_period_start_automatically(&self) -> (b: bool)
        ensures
            b == self.next_period_starts_automatically,
    {
        self.next_period_starts_automatically
    }

    pub fn are_system_notifications_enabled(&self) -> (b: bool)
        ensures
            b == self.system_notifications_are_enabled,
    {
        self.system_notifications_are_enabled
    }

    pub fn is_period_ending_sound_enabled(&self) -> (b: bool)
        ensures
            b == self.period_ending_sound_is_enabled,
    {
        self.period_ending_sound_is_enabled
    }

    pub fn convert_period_to_duration(&self, period: Period) -> (d: u64)
        ensures
            d == self.duration_of(period),
    {
        match period {
            Period::Work => self.work_period,
            Period::ShortBreak => self.short_break_period,
            Period::LongBreak => self.long_break_period,
        }
    }

    /// The beep gain, in thousandths of full volume. The value is handed
    /// through to the audio collaborator uninterpreted; it is not clamped
    /// here.
    pub fn get_beep_volume(&self) -> (v: u64)
        ensures
            v == self.beep_volume,
    {
        self.beep_volume
    }
}

impl Default for Settings {
    fn default() -> (s: Settings)
        ensures
            s == Settings::default_spec(),
    {
        Settings {
            work_period: DEFAULT_WORK_PERIOD_S,
            short_break_period: DEFAULT_SHORT_BREAK_PERIOD_S,
            long_break_period: DEFAULT_LONG_BREAK_PERIOD_S,
            short_breaks_number: DEFAULT_SHORT_BREAKS_BEFORE_LONG_BREAK,
            long_breaks_are_included: true,
            next_period_starts_automatically: false,
            system_notifications_are_enabled: true,
            period_ending_sound_is_enabled: true,
            beep_volume: DEFAULT_BEEP_VOLUME_MILLI,
        }
    }
}

} // verus!
