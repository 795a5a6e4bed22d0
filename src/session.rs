use vstd::prelude::*;

use crate::clock::SessionClock;
use crate::config::{Config, DurationConfig};
use crate::history::{HistoryEntry, HistoryLog};
use crate::phase::Phase;
use crate::text::{clock_text, format_seconds};

verus! {

/// The events a session reacts to.
#[derive(Clone, Copy, Debug, PartialEq, Eq, Structural)]
pub enum PomodoroMessage {
    /// New settings were saved: the session restarts with them.
    UpdateConfig(Config),
    /// One second has passed.
    PomodoroTick,
    StartPomodoro,
    PausePomodoro,
    ResetPomodoro,
}

/// A desktop notification that a session asks for.
#[derive(Clone, Copy, Debug, PartialEq, Eq, Structural)]
pub enum Notice {
    StartedWork,
    StartedBreak,
    Paused,
    Stopped,
    /// The clock moved on into this phase.
    Entered(Phase),
}

impl Notice {
    /// The localization key of the notification's title.
    pub fn title_key(&self) -> (r: &'static str)
        ensures
            r@ == (match self {
                Notice::StartedWork => "pomodoro-started"@,
                Notice::StartedBreak => "break-started"@,
                Notice::Paused => "pomodoro-paused"@,
                Notice::Stopped => "pomodoro-stopped"@,
                Notice::Entered(Phase::Work) => "work-begins"@,
                Notice::Entered(Phase::ShortBreak) => "short-break-begins"@,
                Notice::Entered(Phase::LongBreak) => "long-break-begins"@,
            }),
    {
        match self {
            Notice::StartedWork => "pomodoro-started",
            Notice::StartedBreak => "break-started",
            Notice::Paused => "pomodoro-paused",
            Notice::Stopped => "pomodoro-stopped",
            Notice::Entered(Phase::Work) => "work-begins",
            Notice::Entered(Phase::ShortBreak) => "short-break-begins",
            Notice::Entered(Phase::LongBreak) => "long-break-begins",
        }
    }

    /// The localization key of the notification's body.
    pub fn body_key(&self) -> (r: &'static str)
        ensures
            r@ == (match self {
                Notice::StartedWork => "pomodoro-started-des"@,
                Notice::StartedBreak => "break-started-des"@,
                Notice::Paused => "pomodoro-paused-des"@,
                Notice::Stopped => "pomodoro-stopped-des"@,
                Notice::Entered(Phase::Work) => "work-begins-des"@,
                Notice::Entered(Phase::ShortBreak) => "short-break-begins-des"@,
                Notice::Entered(Phase::LongBreak) => "long-break-begins-des"@,
            }),
    {
        match self {
            Notice::StartedWork => "pomodoro-started-des",
            Notice::StartedBreak => "break-started-des",
            Notice::Paused => "pomodoro-paused-des",
            Notice::Stopped => "pomodoro-stopped-des",
            Notice::Entered(Phase::Work) => "work-begins-des",
            Notice::Entered(Phase::ShortBreak) => "short-break-begins-des",
            Notice::Entered(Phase::LongBreak) => "long-break-begins-des",
        }
    }
}

/// A side effect that a session asks its surroundings to carry out.
#[derive(Clone, Copy, Debug, PartialEq, Eq, Structural)]
pub enum Intent {
    /// Deliver a tick every second from now on.
    RequestExternalTicking,
    /// Deliver no more ticks.
    RequestStopExternalTicking,
    RequestNotification(Notice),
}

/// What a session is, mathematically: its settings, its clock and the
/// completed phases.
pub struct SessionModel {
    pub config: DurationConfig,
    pub clock: SessionClock,
    pub history: Seq<HistoryEntry>,
}

impl SessionModel {
    pub open spec fn wf(self) -> bool {
        self.config.wf() && self.clock.wf(self.config)
    }

    /// A fresh session: stopped, at a full work interval, nothing completed.
    pub open spec fn initial(config: DurationConfig) -> SessionModel {
        SessionModel {
            config,
            clock: SessionClock::initial(config),
            history: Seq::<HistoryEntry>::empty(),
        }
    }

    /// `n` as a request, if notifications are enabled.
    pub open spec fn notify(self, n: Notice) -> Seq<Intent> {
        if self.config.notifications_enabled {
            seq![Intent::RequestNotification(n)]
        } else {
            Seq::<Intent>::empty()
        }
    }

    pub open spec fn started(self) -> SessionModel {
        SessionModel { clock: SessionClock { running: true, ..self.clock }, ..self }
    }

    /// Starting a stopped session asks for ticks, and announces work or a
    /// break; starting a running one asks for nothing.
    pub open spec fn start_intents(self) -> Seq<Intent> {
        if self.clock.running {
            Seq::<Intent>::empty()
        } else {
            seq![Intent::RequestExternalTicking] + self.notify(
                if self.clock.phase is Work {
                    Notice::StartedWork
                } else {
                    Notice::StartedBreak
                },
            )
        }
    }

    pub open spec fn paused(self) -> SessionModel {
        SessionModel { clock: SessionClock { running: false, ..self.clock }, ..self }
    }

    pub open spec fn pause_intents(self) -> Seq<Intent> {
        seq![Intent::RequestStopExternalTicking] + self.notify(Notice::Paused)
    }

    /// A reset keeps the settings and starts the session afresh.
    pub open spec fn reset(self) -> SessionModel {
        SessionModel::initial(self.config)
    }

    pub open spec fn reset_intents(self) -> Seq<Intent> {
        seq![Intent::RequestStopExternalTicking] + self.notify(Notice::Stopped)
    }

    /// One second later: the clock ticks, and a phase that completes is
    /// recorded at the end of the history.
    pub open spec fn ticked(self) -> SessionModel {
        match self.clock.tick_transition(self.config) {
            Some(t) => SessionModel {
                clock: self.clock.ticked(self.config),
                history: self.history.push(t.completed),
                ..self
            },
            None => SessionModel { clock: self.clock.ticked(self.config), ..self },
        }
    }

    /// A tick announces the phase it moves into, and nothing else.
    pub open spec fn tick_intents(self) -> Seq<Intent> {
        match self.clock.tick_transition(self.config) {
            Some(t) => self.notify(Notice::Entered(t.entered)),
            None => Seq::<Intent>::empty(),
        }
    }

    /// New settings start a fresh session with them, whatever came before.
    pub open spec fn reloaded(config: Config) -> SessionModel {
        SessionModel::initial(DurationConfig::clamped(config))
    }

    /// The fresh session is stopped, so ticks are no longer wanted.
    pub open spec fn reload_intents() -> Seq<Intent> {
        seq![Intent::RequestStopExternalTicking]
    }

    /// The session after `msg`.
    pub open spec fn step(self, msg: PomodoroMessage) -> SessionModel {
        match msg {
            PomodoroMessage::UpdateConfig(c) => SessionModel::reloaded(c),
            PomodoroMessage::PomodoroTick => self.ticked(),
            PomodoroMessage::StartPomodoro => self.started(),
            PomodoroMessage::PausePomodoro => self.paused(),
            PomodoroMessage::ResetPomodoro => self.reset(),
        }
    }

    /// What the session asks for on `msg`.
    pub open spec fn step_intents(self, msg: PomodoroMessage) -> Seq<Intent> {
        match msg {
            PomodoroMessage::UpdateConfig(c) => SessionModel::reload_intents(),
            PomodoroMessage::PomodoroTick => self.tick_intents(),
            PomodoroMessage::StartPomodoro => self.start_intents(),
            PomodoroMessage::PausePomodoro => self.pause_intents(),
            PomodoroMessage::ResetPomodoro => self.reset_intents(),
        }
    }
}

/// A Pomodoro session: the settings it runs with, its clock and its history.
/// It is the only thing that changes the clock and the history.
pub struct Pomodoro {
    config: DurationConfig,
    clock: SessionClock,
    history: HistoryLog,
}

impl View for Pomodoro {
    type V = SessionModel;

    closed spec fn view(&self) -> SessionModel {
        SessionModel { config: self.config, clock: self.clock, history: self.history@ }
    }
}

impl Pomodoro {
    #[verifier::type_invariant]
    spec fn inv(&self) -> bool {
        self@.wf()
    }

    /// A fresh session with the settings `config`, clamped.
    pub fn new(config: Config) -> (r: Pomodoro)
        ensures
            r@ == SessionModel::reloaded(config),
            r@.wf(),
    {
        let cfg = DurationConfig::from_config(&config);
        Pomodoro { config: cfg, clock: SessionClock::initialize(&cfg), history: HistoryLog::new() }
    }

    /// The settings the session runs with, once clamped.
    pub fn config(&self) -> (r: DurationConfig)
        ensures
            r == self@.config,
    {
        self.config
    }

    /// The clock as it stands.
    pub fn clock(&self) -> (r: SessionClock)
        ensures
            r == self@.clock,
    {
        self.clock
    }

    pub fn phase(&self) -> (r: Phase)
        ensures
            r == self@.clock.phase,
    {
        self.clock.phase
    }

    pub fn remaining_seconds(&self) -> (r: u32)
        ensures
            r == self@.clock.remaining_seconds,
    {
        self.clock.remaining_seconds
    }

    pub fn phase_total_seconds(&self) -> (r: u32)
        ensures
            r == self@.clock.phase_total_seconds,
    {
        self.clock.phase_total_seconds
    }

    pub fn completed_work_intervals(&self) -> (r: u32)
        ensures
            r == self@.clock.completed_work_intervals,
    {
        self.clock.completed_work_intervals
    }

    pub fn is_running(&self) -> (r: bool)
        ensures
            r == self@.clock.running,
    {
        self.clock.running
    }

    /// The completed phases, oldest first.
    pub fn history(&self) -> (r: &[HistoryEntry])
        ensures
            r@ == self@.history,
    {
        self.history.entries()
    }

    /// The time left in the current phase, as `HH:MM:SS`.
    pub fn format_slider_value(&self) -> (r: String)
        ensures
            r@ == clock_text(self@.clock.remaining_seconds as nat),
    {
        format_seconds(self.clock.remaining_seconds)
    }

    /// The localization key of the status heading: work while the clock
    /// runs, a pause while it is stopped.
    pub fn status_key(&self) -> (r: &'static str)
        ensures
            r@ == (if self@.clock.running {
                "pomodoro"@
            } else {
                "pause"@
            }),
    {
        if self.clock.running {
            "pomodoro"
        } else {
            "pause"
        }
    }

    fn notify(&self, intents: &mut Vec<Intent>, n: Notice)
        ensures
            final(intents)@ == old(intents)@ + self@.notify(n),
    {
        if self.config.notifications_enabled {
            intents.push(Intent::RequestNotification(n));
        }
        assert(final(intents)@ =~= old(intents)@ + self@.notify(n));
    }

    /// Lets the clock run, if it is stopped.
    pub fn on_start(&mut self) -> (r: Vec<Intent>)
        ensures
            final(self)@ == old(self)@.started(),
            final(self)@.wf(),
            r@ == old(self)@.start_intents(),
    {
        proof {
            use_type_invariant(&*self);
        }
        let mut intents: Vec<Intent> = Vec::new();
        if self.clock.running {
            return intents;
        }
        intents.push(Intent::RequestExternalTicking);
        let n = match self.clock.phase {
            Phase::Work => Notice::StartedWork,
            _ => Notice::StartedBreak,
        };
        self.notify(&mut intents, n);
        let mut clock = self.clock;
        clock.start();
        self.clock = clock;
        intents
    }

    /// Stops the clock.
    pub fn on_pause(&mut self) -> (r: Vec<Intent>)
        ensures
            final(self)@ == old(self)@.paused(),
            final(self)@.wf(),
            r@ == old(self)@.pause_intents(),
    {
        proof {
            use_type_invariant(&*self);
        }
        let mut intents: Vec<Intent> = Vec::new();
        intents.push(Intent::RequestStopExternalTicking);
        self.notify(&mut intents, Notice::Paused);
        let mut clock = self.clock;
        clock.pause();
        self.clock = clock;
        intents
    }

    /// Returns to a stopped, full work interval and clears the history.
    pub fn on_reset(&mut self) -> (r: Vec<Intent>)
        ensures
            final(self)@ == old(self)@.reset(),
            final(self)@.wf(),
            r@ == old(self)@.reset_intents(),
    {
        proof {
            use_type_invariant(&*self);
        }
        let mut intents: Vec<Intent> = Vec::new();
        intents.push(Intent::RequestStopExternalTicking);
        self.notify(&mut intents, Notice::Stopped);
        let cfg = self.config;
        let mut clock = self.clock;
        clock.reset(&cfg);
        *self = Pomodoro { config: cfg, clock, history: HistoryLog::new() };
        intents
    }

    /// One second has passed: the clock ticks if it runs, and a completed
    /// phase is recorded and announced.
    pub fn on_tick(&mut self) -> (r: Vec<Intent>)
        ensures
            final(self)@ == old(self)@.ticked(),
            final(self)@.wf(),
            r@ == old(self)@.tick_intents(),
    {
        proof {
            use_type_invariant(&*self);
        }
        let mut intents: Vec<Intent> = Vec::new();
        let cfg = self.config;
        let mut clock = self.clock;
        let transition = clock.tick(&cfg);
        self.clock = clock;
        match transition {
            Some(t) => {
                let mut history = HistoryLog::new();
                std::mem::swap(&mut history, &mut self.history);
                history.append(t.completed);
                self.history = history;
                self.notify(&mut intents, Notice::Entered(t.entered));
            },
            None => {},
        }
        intents
    }

    /// Takes up new settings and starts a fresh session with them.
    pub fn on_config_reload(&mut self, config: Config) -> (r: Vec<Intent>)
        ensures
            final(self)@ == SessionModel::reloaded(config),
            r@ == SessionModel::reload_intents(),
            final(self)@.wf(),
    {
        let cfg = DurationConfig::from_config(&config);
        *self = Pomodoro { config: cfg, clock: SessionClock::initialize(&cfg), history: HistoryLog::new() };
        let mut intents: Vec<Intent> = Vec::new();
        intents.push(Intent::RequestStopExternalTicking);
        intents
    }

    /// Handles one event and returns what the session asks for.
    pub fn update(&mut self, message: PomodoroMessage) -> (r: Vec<Intent>)
        ensures
            final(self)@ == old(self)@.step(message),
            final(self)@.wf(),
            r@ == old(self)@.step_intents(message),
    {
        proof {
            use_type_invariant(&*self);
        }
        match message {
            PomodoroMessage::UpdateConfig(c) => self.on_config_reload(c),
            PomodoroMessage::PomodoroTick => self.on_tick(),
            PomodoroMessage::StartPomodoro => self.on_start(),
            PomodoroMessage::PausePomodoro => self.on_pause(),
            PomodoroMessage::ResetPomodoro => self.on_reset(),
        }
    }
}

} // verus!
