use vstd::prelude::*;

verus! {

/// The part of a Pomodoro cycle that is running.
#[derive(Clone, Copy, Debug, PartialEq, Eq, Structural)]
pub enum Phase {
    Work,
    ShortBreak,
    LongBreak,
}

} // verus!
