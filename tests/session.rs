use chronos::clock::SessionClock;
use chronos::config::{Config, DurationConfig, MAX_MINUTES};
use chronos::history::HistoryEntry;
use chronos::phase::Phase;
use chronos::session::{Intent, Notice, Pomodoro, PomodoroMessage};

fn config(work: u32, short: u32, long: u32, intervals: u32, notifications: bool) -> Config {
    Config {
        timer_duration: work,
        pause_duration: short,
        long_pause_duration: long,
        pomodoro_before_long_pause: intervals,
        notifications_active: notifications,
    }
}

fn tick_n(p: &mut Pomodoro, n: u32) {
    for _ in 0..n {
        p.on_tick();
    }
}

#[test]
fn default_config_values() {
    assert_eq!(Config::default(), config(25, 5, 15, 4, false));
}

#[test]
fn new_session_is_stopped_at_full_work_interval() {
    let p = Pomodoro::new(Config::default());
    assert_eq!(p.phase(), Phase::Work);
    assert_eq!(p.remaining_seconds(), 1500);
    assert_eq!(p.phase_total_seconds(), 1500);
    assert_eq!(p.completed_work_intervals(), 0);
    assert!(!p.is_running());
    assert!(p.history().is_empty());
}

#[test]
fn four_work_intervals_lead_to_long_break() {
    let mut p = Pomodoro::new(config(25, 5, 15, 4, false));
    p.on_start();
    tick_n(&mut p, 1499);
    assert_eq!(p.phase(), Phase::Work);
    assert_eq!(p.remaining_seconds(), 1);
    p.on_tick();
    assert_eq!(p.phase(), Phase::ShortBreak);
    assert_eq!(p.remaining_seconds(), 300);
    assert_eq!(p.history(), &[HistoryEntry { kind: Phase::Work, duration_seconds: 1500 }][..]);
    tick_n(&mut p, 300);
    assert_eq!(p.phase(), Phase::Work);
    for done in 2..4u32 {
        tick_n(&mut p, 1500);
        assert_eq!(p.phase(), Phase::ShortBreak);
        assert_eq!(p.completed_work_intervals(), done);
        tick_n(&mut p, 300);
        assert_eq!(p.phase(), Phase::Work);
    }
    tick_n(&mut p, 1500);
    assert_eq!(p.phase(), Phase::LongBreak);
    assert_eq!(p.remaining_seconds(), 900);
    assert_eq!(p.phase_total_seconds(), 900);
    assert_eq!(p.completed_work_intervals(), 0);
    assert_eq!(p.history().len(), 7);
    tick_n(&mut p, 900);
    assert_eq!(p.phase(), Phase::Work);
    assert_eq!(p.remaining_seconds(), 1500);
    assert_eq!(p.history().last(), Some(&HistoryEntry { kind: Phase::LongBreak, duration_seconds: 900 }));
}

#[test]
fn config_reload_mid_session_restarts_work() {
    let mut p = Pomodoro::new(config(25, 5, 15, 4, false));
    p.on_start();
    tick_n(&mut p, 1500 + 120);
    assert_eq!(p.phase(), Phase::ShortBreak);
    assert_eq!(p.history().len(), 1);
    let intents = p.on_config_reload(config(50, 10, 30, 2, true));
    assert_eq!(intents, vec![Intent::RequestStopExternalTicking]);
    assert_eq!(p.phase(), Phase::Work);
    assert_eq!(p.remaining_seconds(), 3000);
    assert_eq!(p.phase_total_seconds(), 3000);
    assert_eq!(p.completed_work_intervals(), 0);
    assert!(!p.is_running());
    assert!(p.history().is_empty());
    assert_eq!(p.config().intervals_before_long_break, 2);
}

#[test]
fn tick_while_paused_changes_nothing() {
    let mut p = Pomodoro::new(config(1, 1, 1, 2, true));
    p.on_start();
    tick_n(&mut p, 70);
    p.on_pause();
    let clock = p.clock();
    let history = p.history().to_vec();
    assert!(p.on_tick().is_empty());
    assert!(p.on_tick().is_empty());
    assert_eq!(p.clock(), clock);
    assert_eq!(p.history(), &history[..]);
}

#[test]
fn reset_returns_to_work_with_empty_history() {
    let mut p = Pomodoro::new(config(2, 1, 3, 2, true));
    p.on_start();
    tick_n(&mut p, 150);
    assert_eq!(p.phase(), Phase::ShortBreak);
    let intents = p.on_reset();
    assert_eq!(
        intents,
        vec![Intent::RequestStopExternalTicking, Intent::RequestNotification(Notice::Stopped)]
    );
    assert_eq!(p.phase(), Phase::Work);
    assert_eq!(p.remaining_seconds(), 120);
    assert_eq!(p.phase_total_seconds(), 120);
    assert_eq!(p.completed_work_intervals(), 0);
    assert!(!p.is_running());
    assert!(p.history().is_empty());
}

#[test]
fn history_records_phases_in_completion_order() {
    let mut p = Pomodoro::new(config(1, 2, 3, 2, false));
    p.on_start();
    tick_n(&mut p, 60 + 120 + 60 + 180 + 60);
    let w = HistoryEntry { kind: Phase::Work, duration_seconds: 60 };
    let s = HistoryEntry { kind: Phase::ShortBreak, duration_seconds: 120 };
    let l = HistoryEntry { kind: Phase::LongBreak, duration_seconds: 180 };
    assert_eq!(p.history(), &[w, s, w, l, w][..]);
}

#[test]
fn remaining_never_exceeds_total() {
    let mut p = Pomodoro::new(config(1, 1, 2, 3, true));
    let messages = [
        PomodoroMessage::StartPomodoro,
        PomodoroMessage::PomodoroTick,
        PomodoroMessage::PausePomodoro,
        PomodoroMessage::PomodoroTick,
        PomodoroMessage::StartPomodoro,
        PomodoroMessage::ResetPomodoro,
        PomodoroMessage::StartPomodoro,
        PomodoroMessage::UpdateConfig(config(0, 3, 0, 0, false)),
        PomodoroMessage::StartPomodoro,
    ];
    for m in messages {
        p.update(m);
        assert!(p.remaining_seconds() <= p.phase_total_seconds());
        for _ in 0..200 {
            p.update(PomodoroMessage::PomodoroTick);
            assert!(p.remaining_seconds() <= p.phase_total_seconds());
            assert!(p.remaining_seconds() >= 1);
        }
    }
}

#[test]
fn start_asks_for_ticks_and_notification() {
    let mut p = Pomodoro::new(config(1, 1, 1, 1, true));
    assert_eq!(
        p.on_start(),
        vec![Intent::RequestExternalTicking, Intent::RequestNotification(Notice::StartedWork)]
    );
    assert!(p.is_running());
    assert!(p.on_start().is_empty());
    tick_n(&mut p, 59);
    assert_eq!(
        p.on_tick(),
        vec![Intent::RequestNotification(Notice::Entered(Phase::LongBreak))]
    );
    p.on_pause();
    assert_eq!(
        p.on_start(),
        vec![Intent::RequestExternalTicking, Intent::RequestNotification(Notice::StartedBreak)]
    );
}

#[test]
fn pause_without_notifications() {
    let mut p = Pomodoro::new(config(1, 1, 1, 1, false));
    p.on_start();
    assert_eq!(p.on_pause(), vec![Intent::RequestStopExternalTicking]);
    assert!(!p.is_running());
    let mut q = Pomodoro::new(config(1, 1, 1, 1, true));
    assert_eq!(
        q.on_pause(),
        vec![Intent::RequestStopExternalTicking, Intent::RequestNotification(Notice::Paused)]
    );
}

#[test]
fn zero_settings_are_clamped() {
    let d = DurationConfig::from_config(&config(0, 0, 0, 0, true));
    assert_eq!(d.work_minutes, 1);
    assert_eq!(d.short_break_minutes, 1);
    assert_eq!(d.long_break_minutes, 1);
    assert_eq!(d.intervals_before_long_break, 1);
    assert!(d.notifications_enabled);
    let mut p = Pomodoro::new(config(0, 0, 0, 0, false));
    assert_eq!(p.remaining_seconds(), 60);
    p.on_start();
    tick_n(&mut p, 60);
    assert_eq!(p.phase(), Phase::LongBreak);
    assert_eq!(p.completed_work_intervals(), 0);
}

#[test]
fn largest_durations_are_clamped() {
    let d = DurationConfig::from_config(&config(u32::MAX, MAX_MINUTES, MAX_MINUTES + 1, 7, false));
    assert_eq!(d.work_minutes, MAX_MINUTES);
    assert_eq!(d.short_break_minutes, MAX_MINUTES);
    assert_eq!(d.long_break_minutes, MAX_MINUTES);
    assert_eq!(d.seconds(Phase::Work), 4_294_967_280);
    let p = Pomodoro::new(config(u32::MAX, 1, 1, 1, false));
    assert_eq!(p.remaining_seconds(), 4_294_967_280);
}

#[test]
fn clock_tick_reports_transition() {
    let d = DurationConfig::from_config(&config(1, 2, 3, 2, false));
    let mut c = SessionClock::initialize(&d);
    assert_eq!(c.tick(&d), None);
    assert_eq!(c.remaining_seconds, 60);
    c.start();
    for _ in 0..59 {
        assert_eq!(c.tick(&d), None);
    }
    let t = c.tick(&d).unwrap();
    assert_eq!(t.completed, HistoryEntry { kind: Phase::Work, duration_seconds: 60 });
    assert_eq!(t.entered, Phase::ShortBreak);
    assert_eq!(c.phase, Phase::ShortBreak);
    assert_eq!(c.completed_work_intervals, 1);
    assert_eq!(c.remaining_seconds, 120);
    c.reset(&d);
    assert_eq!(c, SessionClock::initialize(&d));
}

#[test]
fn status_and_remaining_text() {
    let mut p = Pomodoro::new(config(25, 5, 15, 4, false));
    assert_eq!(p.status_key(), "pause");
    assert_eq!(p.format_slider_value(), "00:25:00");
    p.on_start();
    tick_n(&mut p, 61);
    assert_eq!(p.status_key(), "pomodoro");
    assert_eq!(p.format_slider_value(), "00:23:59");
}

#[test]
fn notice_keys() {
    assert_eq!(Notice::StartedWork.title_key(), "pomodoro-started");
    assert_eq!(Notice::StartedWork.body_key(), "pomodoro-started-des");
    assert_eq!(Notice::Paused.title_key(), "pomodoro-paused");
    assert_eq!(Notice::Stopped.body_key(), "pomodoro-stopped-des");
    assert_eq!(Notice::Entered(Phase::LongBreak).title_key(), "long-break-begins");
    assert_eq!(Notice::StartedBreak.body_key(), "break-started-des");
}

#[test]
fn clock_with_no_time_left_moves_on() {
    let d = DurationConfig::from_config(&config(1, 2, 3, 2, false));
    let mut c = SessionClock { remaining_seconds: 0, ..SessionClock::initialize(&d) };
    assert_eq!(c.tick(&d), None);
    assert_eq!(c.remaining_seconds, 0);
    c.start();
    let t = c.tick(&d).unwrap();
    assert_eq!(t.completed, HistoryEntry { kind: Phase::Work, duration_seconds: 60 });
    assert_eq!(c.phase, Phase::ShortBreak);
    assert_eq!(c.remaining_seconds, 120);
}
