//! The shared mutable state that actions read and mutate.

use vstd::prelude::*;

verus! {

/// The officiating lifecycle of a match.
///
/// Pause and resume never change the phase: a paused match stays in
/// whatever phase it was in, and resuming continues from there.
#[derive(Clone, Copy, Debug, PartialEq, Eq, Structural)]
pub enum Phase {
    NotStarted,
    InProgress,
    Finished,
}

/// The observable officiating state of one match.
///
/// `is_paused` gates the external timer subsystem: while it is true no
/// clock may advance. The clock and score fields are carried here so
/// that the contracts can say which fields an action leaves untouched;
/// pause and resume touch none of them.
#[derive(Clone, Copy, Debug, PartialEq, Eq, Structural)]
pub struct Game {
    /// Where the match stands in its lifecycle.
    pub phase: Phase,
    /// True exactly while the match is frozen in place.
    pub is_paused: bool,
    /// Remaining time on the match clock, in milliseconds. Advanced by
    /// the external timer subsystem, and only while `is_paused` is false.
    pub clock_millis: u64,
    /// Points scored by the home side.
    pub home_score: u32,
    /// Points scored by the away side.
    pub away_score: u32,
}

/// The context an action is applied against: the single piece of mutable
/// state in the system. The engine borrows it exclusively for the
/// duration of one apply call and never retains it.
#[derive(Clone, Copy, Debug, PartialEq, Eq, Structural)]
pub struct ActionContext {
    /// The match state the action reads and mutates.
    pub game: Game,
}

} // verus!
