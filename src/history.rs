use vstd::prelude::*;

use crate::phase::Phase;
use crate::text::{clock_text, format_seconds};

verus! {

/// One completed phase: which it was and how long it was configured to last.
#[derive(Clone, Copy, Debug, PartialEq, Eq, Structural)]
pub struct HistoryEntry {
    pub kind: Phase,
    pub duration_seconds: u32,
}

impl HistoryEntry {
    /// The localization key of the entry's label: work, or a pause for
    /// either kind of break.
    pub fn label_key(&self) -> (r: &'static str)
        ensures
            r@ == (if self.kind is Work {
                "pomodoro"@
            } else {
                "pause"@
            }),
    {
        match self.kind {
            Phase::Work => "pomodoro",
            _ => "pause",
        }
    }

    /// The entry's length, as `HH:MM:SS`.
    pub fn duration_text(&self) -> (r: String)
        ensures
            r@ == clock_text(self.duration_seconds as nat),
    {
        format_seconds(self.duration_seconds)
    }
}

/// The phases completed in a session, in the order they completed.
pub struct HistoryLog {
    entries: Vec<HistoryEntry>,
}

impl View for HistoryLog {
    type V = Seq<HistoryEntry>;

    closed spec fn view(&self) -> Seq<HistoryEntry> {
        self.entries@
    }
}

impl HistoryLog {
    /// An empty log.
    pub fn new() -> (r: HistoryLog)
        ensures
            r@ == Seq::<HistoryEntry>::empty(),
    {
        HistoryLog { entries: Vec::new() }
    }

    /// Adds `entry` after the entries already there.
    pub fn append(&mut self, entry: HistoryEntry)
        ensures
            final(self)@ == old(self)@.push(entry),
    {
        self.entries.push(entry);
    }

    /// Removes every entry.
    pub fn clear(&mut self)
        ensures
            final(self)@ == Seq::<HistoryEntry>::empty(),
    {
        self.entries.clear();
    }

    /// The number of entries.
    pub fn len(&self) -> (r: usize)
        ensures
            r == self@.len(),
    {
        self.entries.len()
    }

    /// The entries, oldest first.
    pub fn entries(&self) -> (r: &[HistoryEntry])
        ensures
            r@ == self@,
    {
        self.entries.as_slice()
    }
}

} // verus!
