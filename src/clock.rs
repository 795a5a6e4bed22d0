use vstd::prelude::*;

use crate::config::DurationConfig;
use crate::history::HistoryEntry;
use crate::phase::Phase;

verus! {

/// What a tick reports when the current phase has run out: the phase that
/// completed, with its configured length, and the phase that begins.
#[derive(Clone, Copy, Debug, PartialEq, Eq, Structural)]
pub struct Transition {
    pub completed: HistoryEntry,
    pub entered: Phase,
}

/// The countdown of a session: the current phase, the time left in it, and
/// the number of work intervals completed since the last long break.
#[derive(Clone, Copy, Debug, PartialEq, Eq, Structural)]
pub struct SessionClock {
    pub phase: Phase,
    pub remaining_seconds: u32,
    pub phase_total_seconds: u32,
    pub completed_work_intervals: u32,
    pub running: bool,
}

impl SessionClock {
    /// The clock agrees with `cfg`: no more time is left than the phase's
    /// length, that length is the one configured, and fewer work intervals
    /// have completed than come before a long break.
    pub open spec fn agrees_with(self, cfg: DurationConfig) -> bool {
        &&& self.remaining_seconds <= self.phase_total_seconds
        &&& self.phase_total_seconds == cfg.seconds_of(self.phase)
        &&& self.completed_work_intervals < cfg.intervals_before_long_break
    }

    /// The clock agrees with `cfg` and has time left, as every clock that
    /// this library hands out has.
    pub open spec fn wf(self, cfg: DurationConfig) -> bool {
        self.agrees_with(cfg) && 1 <= self.remaining_seconds
    }

    /// A stopped clock at the start of a full work interval.
    pub open spec fn initial(cfg: DurationConfig) -> SessionClock {
        SessionClock {
            phase: Phase::Work,
            remaining_seconds: cfg.seconds_of(Phase::Work) as u32,
            phase_total_seconds: cfg.seconds_of(Phase::Work) as u32,
            completed_work_intervals: 0,
            running: false,
        }
    }

    /// The phase that follows the current one: a work interval ends in a long
    /// break when it completes the count configured, else in a short one; a
    /// break is followed by work.
    pub open spec fn next_phase(self, cfg: DurationConfig) -> Phase {
        match self.phase {
            Phase::Work => if self.completed_work_intervals + 1 < cfg.intervals_before_long_break {
                Phase::ShortBreak
            } else {
                Phase::LongBreak
            },
            _ => Phase::Work,
        }
    }

    /// The completed work count once the current phase is over.
    pub open spec fn next_completed(self, cfg: DurationConfig) -> u32 {
        match self.phase {
            Phase::Work => if self.completed_work_intervals + 1 < cfg.intervals_before_long_break {
                (self.completed_work_intervals + 1) as u32
            } else {
                0
            },
            _ => self.completed_work_intervals,
        }
    }

    /// The clock at the start of the next phase, at its full length.
    pub open spec fn advanced(self, cfg: DurationConfig) -> SessionClock {
        SessionClock {
            phase: self.next_phase(cfg),
            remaining_seconds: cfg.seconds_of(self.next_phase(cfg)) as u32,
            phase_total_seconds: cfg.seconds_of(self.next_phase(cfg)) as u32,
            completed_work_intervals: self.next_completed(cfg),
            running: self.running,
        }
    }

    /// The clock one second later. A stopped clock does not move; with more
    /// than one second left the time left drops by one; else the phase is over.
    pub open spec fn ticked(self, cfg: DurationConfig) -> SessionClock {
        if !self.running {
            self
        } else if self.remaining_seconds > 1 {
            SessionClock { remaining_seconds: (self.remaining_seconds - 1) as u32, ..self }
        } else {
            self.advanced(cfg)
        }
    }

    /// What a tick reports: a transition exactly when a running clock's
    /// phase runs out.
    pub open spec fn tick_transition(self, cfg: DurationConfig) -> Option<Transition> {
        if self.running && self.remaining_seconds <= 1 {
            Some(
                Transition {
                    completed: HistoryEntry {
                        kind: self.phase,
                        duration_seconds: self.phase_total_seconds,
                    },
                    entered: self.next_phase(cfg),
                },
            )
        } else {
            None
        }
    }

    /// A stopped clock at the start of a full work interval.
    pub fn initialize(cfg: &DurationConfig) -> (r: SessionClock)
        requires
            cfg.wf(),
        ensures
            r == Self::initial(*cfg),
            r.wf(*cfg),
    {
        let seconds = cfg.seconds(Phase::Work);
        SessionClock {
            phase: Phase::Work,
            remaining_seconds: seconds,
            phase_total_seconds: seconds,
            completed_work_intervals: 0,
            running: false,
        }
    }

    /// Advances the clock by one second and reports a completed phase.
    pub fn tick(&mut self, cfg: &DurationConfig) -> (r: Option<Transition>)
        requires
            cfg.wf(),
            old(self).agrees_with(*cfg),
        ensures
            *final(self) == old(self).ticked(*cfg),
            r == old(self).tick_transition(*cfg),
            final(self).agrees_with(*cfg),
            old(self).running || old(self).remaining_seconds >= 1 ==> final(self).wf(*cfg),
    {
        if !self.running {
            return None;
        }
        if self.remaining_seconds > 1 {
            self.remaining_seconds = self.remaining_seconds - 1;
            return None;
        }
        let completed = HistoryEntry { kind: self.phase, duration_seconds: self.phase_total_seconds };
        let (next, count) = match self.phase {
            Phase::Work => if self.completed_work_intervals + 1 < cfg.intervals_before_long_break {
                (Phase::ShortBreak, self.completed_work_intervals + 1)
            } else {
                (Phase::LongBreak, 0)
            },
            _ => (Phase::Work, self.completed_work_intervals),
        };
        let seconds = cfg.seconds(next);
        self.phase = next;
        self.remaining_seconds = seconds;
        self.phase_total_seconds = seconds;
        self.completed_work_intervals = count;
        Some(Transition { completed, entered: next })
    }

    /// Lets the clock run; nothing else changes.
    pub fn start(&mut self)
        ensures
            *final(self) == (SessionClock { running: true, ..*old(self) }),
    {
        self.running = true;
    }

    /// Stops the clock; nothing else changes.
    pub fn pause(&mut self)
        ensures
            *final(self) == (SessionClock { running: false, ..*old(self) }),
    {
        self.running = false;
    }

    /// Returns to a stopped, full work interval, as at initialization.
    pub fn reset(&mut self, cfg: &DurationConfig)
        requires
            cfg.wf(),
        ensures
            *final(self) == Self::initial(*cfg),
            final(self).wf(*cfg),
    {
        *self = Self::initialize(cfg);
    }
}

} // verus!
