//! The action that freezes a running match in place.

use vstd::prelude::*;

use crate::context::{ActionContext, Game};

verus! {

/// Command that pauses the match: a system-level freeze. Unlike a phase
/// transition, it changes no officiating state — it only raises the flag
/// that stops the timer subsystem from advancing any clock.
#[derive(Clone, Copy, Debug, PartialEq, Eq, Structural)]
pub struct Pause;

impl Pause {
    /// Pausing is legal exactly when the match is not already paused.
    pub open spec fn legal(c: ActionContext) -> bool {
        !c.game.is_paused
    }

    /// The whole effect of pausing: the pause flag is raised and every
    /// other field keeps its value.
    pub open spec fn applied(c: ActionContext) -> ActionContext {
        ActionContext {
            game: Game {
                phase: c.game.phase,
                is_paused: true,
                clock_millis: c.game.clock_millis,
                home_score: c.game.home_score,
                away_score: c.game.away_score,
            },
        }
    }

    /// The legality predicate: pure, and a function of the context's
    /// current observable state alone.
    pub fn is_legal(&self, c: &ActionContext) -> (r: bool)
        ensures
            r == Self::legal(*c),
    {
        !c.game.is_paused
    }

    /// Sets `is_paused` to true and changes nothing else. May only be
    /// invoked when `is_legal` holds of the same context state.
    pub fn execute(&self, c: &mut ActionContext)
        requires
            Self::legal(*old(c)),
        ensures
            *final(c) == Self::applied(*old(c)),
            final(c).game.is_paused,
            final(c).game.phase == old(c).game.phase,
            final(c).game.clock_millis == old(c).game.clock_millis,
            final(c).game.home_score == old(c).game.home_score,
            final(c).game.away_score == old(c).game.away_score,
    {
        c.game.is_paused = true;
    }
}

} // verus!
