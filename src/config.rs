use vstd::prelude::*;

use crate::phase::Phase;

verus! {

/// The largest number of minutes whose length in seconds fits in a `u32`.
pub const MAX_MINUTES: u32 = 71_582_788;

/// The timer settings as the settings store keeps them.
///
/// Nothing is assumed of the values: a zero or an out-of-range duration is
/// clamped when the settings are taken up as a [`DurationConfig`].
#[derive(Clone, Copy, Debug, PartialEq, Eq, Structural)]
pub struct Config {
    /// Length of a work interval, in minutes.
    pub timer_duration: u32,
    /// Length of a short break, in minutes.
    pub pause_duration: u32,
    /// Length of a long break, in minutes.
    pub long_pause_duration: u32,
    /// Number of work intervals that are followed by a long break.
    pub pomodoro_before_long_pause: u32,
    /// Whether desktop notifications are requested.
    pub notifications_active: bool,
}

impl Default for Config {
    fn default() -> (r: Self)
        ensures
            r == (Config {
                timer_duration: 25,
                pause_duration: 5,
                long_pause_duration: 15,
                pomodoro_before_long_pause: 4,
                notifications_active: false,
            }),
    {
        Config {
            timer_duration: 25,
            pause_duration: 5,
            long_pause_duration: 15,
            pomodoro_before_long_pause: 4,
            notifications_active: false,
        }
    }
}

/// A minute count brought into `1..=MAX_MINUTES`.
pub open spec fn clamp_minutes(m: u32) -> u32 {
    if m < 1 {
        1
    } else if m > MAX_MINUTES {
        MAX_MINUTES
    } else {
        m
    }
}

/// An interval count brought to at least one.
pub open spec fn clamp_count(n: u32) -> u32 {
    if n < 1 {
        1
    } else {
        n
    }
}

/// A snapshot of the durations that a session runs with.
///
/// Well formed (`wf`) when every duration lies in `1..=MAX_MINUTES` and at
/// least one work interval comes before a long break.
#[derive(Clone, Copy, Debug, PartialEq, Eq, Structural)]
pub struct DurationConfig {
    pub work_minutes: u32,
    pub short_break_minutes: u32,
    pub long_break_minutes: u32,
    pub intervals_before_long_break: u32,
    pub notifications_enabled: bool,
}

impl DurationConfig {
    pub open spec fn wf(self) -> bool {
        &&& 1 <= self.work_minutes <= MAX_MINUTES
        &&& 1 <= self.short_break_minutes <= MAX_MINUTES
        &&& 1 <= self.long_break_minutes <= MAX_MINUTES
        &&& 1 <= self.intervals_before_long_break
    }

    /// The configured length of `phase`, in minutes.
    pub open spec fn minutes_of(self, phase: Phase) -> u32 {
        match phase {
            Phase::Work => self.work_minutes,
            Phase::ShortBreak => self.short_break_minutes,
            Phase::LongBreak => self.long_break_minutes,
        }
    }

    /// The configured length of `phase`, in seconds.
    pub open spec fn seconds_of(self, phase: Phase) -> int {
        self.minutes_of(phase) * 60
    }

    /// The snapshot that the settings `c` give once clamped.
    pub open spec fn clamped(c: Config) -> DurationConfig {
        DurationConfig {
            work_minutes: clamp_minutes(c.timer_duration),
            short_break_minutes: clamp_minutes(c.pause_duration),
            long_break_minutes: clamp_minutes(c.long_pause_duration),
            intervals_before_long_break: clamp_count(c.pomodoro_before_long_pause),
            notifications_enabled: c.notifications_active,
        }
    }

    /// Takes up settings from the store, clamping each duration to
    /// `1..=MAX_MINUTES` and the interval count to at least one.
    pub fn from_config(c: &Config) -> (r: DurationConfig)
        ensures
            r == Self::clamped(*c),
            r.wf(),
    {
        DurationConfig {
            work_minutes: clamp_minutes_exec(c.timer_duration),
            short_break_minutes: clamp_minutes_exec(c.pause_duration),
            long_break_minutes: clamp_minutes_exec(c.long_pause_duration),
            intervals_before_long_break: if c.pomodoro_before_long_pause < 1 {
                1
            } else {
                c.pomodoro_before_long_pause
            },
            notifications_enabled: c.notifications_active,
        }
    }

    /// The configured length of `phase`, in seconds.
    pub fn seconds(&self, phase: Phase) -> (r: u32)
        requires
            self.wf(),
        ensures
            r == self.seconds_of(phase),
    {
        let m = match phase {
            Phase::Work => self.work_minutes,
            Phase::ShortBreak => self.short_break_minutes,
            Phase::LongBreak => self.long_break_minutes,
        };
        m * 60
    }
}

fn clamp_minutes_exec(m: u32) -> (r: u32)
    ensures
        r == clamp_minutes(m),
{
    if m < 1 {
        1
    } else if m > MAX_MINUTES {
        MAX_MINUTES
    } else {
        m
    }
}

} // verus!
