use vstd::prelude::*;

use crate::clock::SessionClock;
use crate::config::DurationConfig;
use crate::history::HistoryEntry;
use crate::phase::Phase;
use crate::session::{Intent, PomodoroMessage, SessionModel};

verus! {

/// The session after `k` ticks.
pub open spec fn ticks(m: SessionModel, k: nat) -> SessionModel
    decreases k,
{
    if k == 0 {
        m
    } else {
        ticks(m.ticked(), (k - 1) as nat)
    }
}

/// The session once its current phase has run out: as many ticks as there
/// are seconds left.
pub open spec fn complete(m: SessionModel) -> SessionModel {
    ticks(m, m.clock.remaining_seconds as nat)
}

/// The session after `k` phases have run out one after the other.
pub open spec fn completions(m: SessionModel, k: nat) -> SessionModel
    decreases k,
{
    if k == 0 {
        m
    } else {
        complete(completions(m, (k - 1) as nat))
    }
}

/// The history entry for the phase that `c` is in.
pub open spec fn entry_of(c: SessionClock) -> HistoryEntry {
    HistoryEntry { kind: c.phase, duration_seconds: c.phase_total_seconds }
}

/// The session at the start of its next phase, with the current one recorded.
pub open spec fn moved_on(m: SessionModel) -> SessionModel {
    SessionModel {
        clock: m.clock.advanced(m.config),
        history: m.history.push(entry_of(m.clock)),
        ..m
    }
}

proof fn lemma_seconds_fit(cfg: DurationConfig, p: Phase)
    requires
        cfg.wf(),
    ensures
        60 <= cfg.seconds_of(p) <= u32::MAX,
{
}

proof fn lemma_advanced_wf(m: SessionModel)
    requires
        m.wf(),
    ensures
        m.clock.advanced(m.config).wf(m.config),
        moved_on(m).wf(),
{
    lemma_seconds_fit(m.config, m.clock.next_phase(m.config));
}

proof fn lemma_ticked_wf(m: SessionModel)
    requires
        m.wf(),
    ensures
        m.ticked().wf(),
        m.ticked().config == m.config,
        m.ticked().clock.running == m.clock.running,
{
    lemma_advanced_wf(m);
}

/// A running session whose phase has `r` seconds left moves on to the next
/// phase after exactly `r` ticks, recording the phase that ran out.
pub proof fn lemma_run_out(m: SessionModel)
    requires
        m.wf(),
        m.clock.running,
    ensures
        complete(m) == moved_on(m),
    decreases m.clock.remaining_seconds,
{
    let r = m.clock.remaining_seconds as nat;
    if r == 1 {
        assert(ticks(m.ticked(), 0) == m.ticked());
        assert(m.ticked() == moved_on(m));
    } else {
        let n = m.ticked();
        lemma_ticked_wf(m);
        assert(n.clock.remaining_seconds == r - 1);
        lemma_run_out(n);
        assert(ticks(m, r) == ticks(n, (r - 1) as nat));
        assert(moved_on(n) == moved_on(m));
    }
}

proof fn lemma_complete(m: SessionModel)
    requires
        m.wf(),
        m.clock.running,
    ensures
        complete(m) == moved_on(m),
        complete(m).wf(),
        complete(m).clock.running,
        complete(m).config == m.config,
{
    lemma_run_out(m);
    lemma_advanced_wf(m);
}

proof fn lemma_completions_wf(m: SessionModel, k: nat)
    requires
        m.wf(),
        m.clock.running,
    ensures
        completions(m, k).wf(),
        completions(m, k).clock.running,
        completions(m, k).config == m.config,
    decreases k,
{
    if k > 0 {
        lemma_completions_wf(m, (k - 1) as nat);
        lemma_complete(completions(m, (k - 1) as nat));
    }
}

/// Every operation leaves a well-formed session well formed; in particular
/// the time left never exceeds the length of the current phase.
pub proof fn law_remaining_within_phase(m: SessionModel, msg: PomodoroMessage)
    requires
        m.wf(),
    ensures
        m.step(msg).wf(),
        m.step(msg).clock.remaining_seconds <= m.step(msg).clock.phase_total_seconds,
{
    lemma_ticked_wf(m);
    lemma_seconds_fit(m.config, Phase::Work);
    match msg {
        PomodoroMessage::UpdateConfig(c) => {
            lemma_seconds_fit(DurationConfig::clamped(c), Phase::Work);
        },
        _ => {},
    }
}

/// A reset always leads to a stopped session at a full work interval, of the
/// configured length, with an empty history.
pub proof fn law_reset_restarts_work(m: SessionModel)
    requires
        m.wf(),
    ensures
        m.reset().clock.phase == Phase::Work,
        m.reset().clock.remaining_seconds == m.reset().clock.phase_total_seconds,
        m.reset().clock.phase_total_seconds == m.config.work_minutes * 60,
        !m.reset().clock.running,
        m.reset().history.len() == 0,
        m.reset().config == m.config,
{
    lemma_seconds_fit(m.config, Phase::Work);
}

/// A tick on a stopped session changes nothing and asks for nothing, however
/// often it comes.
pub proof fn law_tick_while_paused_is_noop(m: SessionModel)
    requires
        !m.clock.running,
    ensures
        m.ticked() == m,
        m.ticked().ticked() == m,
        m.tick_intents() == Seq::<Intent>::empty(),
        m.ticked().tick_intents() == Seq::<Intent>::empty(),
{
}

/// After `k` phases have run out, with no reset in between, the history holds
/// `k` more entries: the phases in the order they completed, each with its
/// configured length.
pub proof fn law_history_in_completion_order(m: SessionModel, k: nat)
    requires
        m.wf(),
        m.clock.running,
    ensures
        completions(m, k).history.len() == m.history.len() + k,
        completions(m, k).history.subrange(0, m.history.len() as int) == m.history,
        forall|i: nat|
            i < k ==> #[trigger] completions(m, k).history[m.history.len() + i as int] == entry_of(
                completions(m, i).clock,
            ),
    decreases k,
{
    if k > 0 {
        let p = completions(m, (k - 1) as nat);
        law_history_in_completion_order(m, (k - 1) as nat);
        lemma_completions_wf(m, (k - 1) as nat);
        lemma_complete(p);
        let h = completions(m, k).history;
        assert(h == p.history.push(entry_of(p.clock)));
        assert(h.subrange(0, m.history.len() as int) =~= m.history) by {
            assert forall|j: int| 0 <= j < m.history.len() implies h[j] == m.history[j] by {
                assert(p.history.subrange(0, m.history.len() as int)[j] == m.history[j]);
            }
        }
        assert forall|i: nat| i < k implies #[trigger] h[m.history.len() + i as int] == entry_of(
            completions(m, i).clock,
        ) by {
            if i < k - 1 {
                assert(p.history[m.history.len() + i as int] == entry_of(completions(m, i).clock));
            }
        }
    }
}

/// Starting a work interval with no work completed yet, and letting each
/// phase run out in turn: work and short break alternate while fewer than
/// `n` work intervals have completed, and the `n`-th work interval to
/// complete leads into a long break, with the work count back at zero.
pub proof fn law_long_break_after_n_work_intervals(m: SessionModel)
    requires
        m.wf(),
        m.clock.running,
        m.clock.phase == Phase::Work,
        m.clock.completed_work_intervals == 0,
    ensures
        forall|j: nat|
            j + 1 < m.config.intervals_before_long_break ==> {
                &&& (#[trigger] completions(m, 2 * j + 1)).clock.phase == Phase::ShortBreak
                &&& completions(m, 2 * j + 1).clock.completed_work_intervals == j + 1
                &&& completions(m, 2 * j + 2).clock.phase == Phase::Work
            },
        completions(
            m,
            (2 * m.config.intervals_before_long_break - 1) as nat,
        ).clock.phase == Phase::LongBreak,
        completions(
            m,
            (2 * m.config.intervals_before_long_break - 1) as nat,
        ).clock.completed_work_intervals == 0,
        completions(
            m,
            (2 * m.config.intervals_before_long_break - 1) as nat,
        ).clock.remaining_seconds == m.config.long_break_minutes * 60,
{
    let n = m.config.intervals_before_long_break as nat;
    assert forall|j: nat| j + 1 < n implies {
        &&& (#[trigger] completions(m, 2 * j + 1)).clock.phase == Phase::ShortBreak
        &&& completions(m, 2 * j + 1).clock.completed_work_intervals == j + 1
        &&& completions(m, 2 * j + 2).clock.phase == Phase::Work
    } by {
        lemma_work_cycles(m, j);
        let w = completions(m, 2 * j);
        lemma_completions_wf(m, 2 * j);
        lemma_complete(w);
        lemma_complete(completions(m, 2 * j + 1));
        assert(completions(m, 2 * j + 1) == complete(w));
        assert(completions(m, 2 * j + 2) == complete(completions(m, 2 * j + 1)));
    }
    let last = (n - 1) as nat;
    lemma_work_cycles(m, last);
    let w = completions(m, 2 * last);
    lemma_completions_wf(m, 2 * last);
    lemma_complete(w);
    assert(completions(m, 2 * last + 1) == complete(w));
    assert((2 * n - 1) as nat == 2 * last + 1);
    lemma_seconds_fit(m.config, Phase::LongBreak);
}

/// After `j` work intervals and their short breaks, with `j` below the
/// count before a long break, a work interval starts with `j` completed.
proof fn lemma_work_cycles(m: SessionModel, j: nat)
    requires
        m.wf(),
        m.clock.running,
        m.clock.phase == Phase::Work,
        m.clock.completed_work_intervals == 0,
        j < m.config.intervals_before_long_break,
    ensures
        completions(m, 2 * j).clock.phase == Phase::Work,
        completions(m, 2 * j).clock.completed_work_intervals == j,
    decreases j,
{
    if j > 0 {
        let i = (j - 1) as nat;
        lemma_work_cycles(m, i);
        let w = completions(m, 2 * i);
        lemma_completions_wf(m, 2 * i);
        lemma_complete(w);
        let b = completions(m, 2 * i + 1);
        assert(b == complete(w));
        lemma_complete(b);
        assert(completions(m, 2 * j) == complete(b));
    }
}

} // verus!
