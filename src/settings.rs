use vstd::prelude::*;

use crate::config::Config;
use crate::text::{decimal, decimal_string};

verus! {

/// A change made on the settings page. Durations are in whole minutes.
#[derive(Clone, Copy, Debug, PartialEq, Eq, Structural)]
pub enum SettingsMessage {
    TimerDurationChanged(u32),
    PauseDurationChanged(u32),
    LongPauseDurationChanged(u32),
    PomodoroBeforeLongPauseChanged(u32),
    NotificationToggle(bool),
}

impl SettingsMessage {
    /// The settings `c` with the one field that this change names set.
    pub open spec fn applied_to(self, c: Config) -> Config {
        match self {
            SettingsMessage::TimerDurationChanged(v) => Config { timer_duration: v, ..c },
            SettingsMessage::PauseDurationChanged(v) => Config { pause_duration: v, ..c },
            SettingsMessage::LongPauseDurationChanged(v) => Config { long_pause_duration: v, ..c },
            SettingsMessage::PomodoroBeforeLongPauseChanged(v) => Config {
                pomodoro_before_long_pause: v,
                ..c
            },
            SettingsMessage::NotificationToggle(v) => Config { notifications_active: v, ..c },
        }
    }
}

/// The values shown on the settings page, and the interval count also as
/// the text its number field displays.
pub struct Settings {
    timer_duration_value: u32,
    pause_duration: u32,
    long_pause_duration: u32,
    pomodoro_before_long_pause_str: String,
    pomodoro_before_long_pause: u32,
    notification_active: bool,
}

impl View for Settings {
    type V = Config;

    closed spec fn view(&self) -> Config {
        Config {
            timer_duration: self.timer_duration_value,
            pause_duration: self.pause_duration,
            long_pause_duration: self.long_pause_duration,
            pomodoro_before_long_pause: self.pomodoro_before_long_pause,
            notifications_active: self.notification_active,
        }
    }
}

impl Settings {
    #[verifier::type_invariant]
    spec fn inv(&self) -> bool {
        self.pomodoro_before_long_pause_str@ == decimal(self.pomodoro_before_long_pause as nat)
    }

    /// The page showing the settings `config`.
    pub fn new(config: &Config) -> (r: Settings)
        ensures
            r@ == *config,
    {
        Settings {
            timer_duration_value: config.timer_duration,
            pause_duration: config.pause_duration,
            long_pause_duration: config.long_pause_duration,
            pomodoro_before_long_pause_str: decimal_string(config.pomodoro_before_long_pause),
            pomodoro_before_long_pause: config.pomodoro_before_long_pause,
            notification_active: config.notifications_active,
        }
    }

    /// The settings shown, as the store keeps them.
    pub fn to_config(&self) -> (r: Config)
        ensures
            r == self@,
    {
        Config {
            timer_duration: self.timer_duration_value,
            pause_duration: self.pause_duration,
            long_pause_duration: self.long_pause_duration,
            pomodoro_before_long_pause: self.pomodoro_before_long_pause,
            notifications_active: self.notification_active,
        }
    }

    /// The interval count as its number field displays it, in decimal.
    pub fn pomodoro_before_long_pause_text(&self) -> (r: &str)
        ensures
            r@ == decimal(self@.pomodoro_before_long_pause as nat),
    {
        proof {
            use_type_invariant(self);
        }
        self.pomodoro_before_long_pause_str.as_str()
    }

    /// Applies a change and returns the settings to store, which the running
    /// session is then to take up.
    pub fn update(&mut self, message: SettingsMessage) -> (r: Config)
        ensures
            final(self)@ == message.applied_to(old(self)@),
            r == final(self)@,
    {
        let c = message_applied(message, self.to_config());
        *self = Settings::new(&c);
        c
    }
}

fn message_applied(message: SettingsMessage, c: Config) -> (r: Config)
    ensures
        r == message.applied_to(c),
{
    match message {
        SettingsMessage::TimerDurationChanged(v) => Config { timer_duration: v, ..c },
        SettingsMessage::PauseDurationChanged(v) => Config { pause_duration: v, ..c },
        SettingsMessage::LongPauseDurationChanged(v) => Config { long_pause_duration: v, ..c },
        SettingsMessage::PomodoroBeforeLongPauseChanged(v) => Config {
            pomodoro_before_long_pause: v,
            ..c
        },
        SettingsMessage::NotificationToggle(v) => Config { notifications_active: v, ..c },
    }
}

} // verus!
