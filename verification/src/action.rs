//! The action contract and the apply-protocol: legality is checked
//! immediately before execution, and an illegal command is rejected
//! without touching the context.

use vstd::prelude::*;

use crate::context::ActionContext;
use crate::pause::Pause;
use crate::resume::Resume;

verus! {

/// The one error the engine reports: the command's legality predicate
/// rejected the context's current state. Execution itself cannot fail —
/// every precondition of an action must live in its legality predicate.
#[derive(Clone, Copy, Debug, PartialEq, Eq, Structural)]
pub struct IllegalActionError;

/// The closed set of commands the engine knows. Every variant supplies a
/// legality predicate and an execution effect; the apply-protocol treats
/// them uniformly, and an exhaustive match keeps the set closed at
/// compile time.
#[derive(Clone, Copy, Debug, PartialEq, Eq, Structural)]
pub enum Action {
    Pause(Pause),
    Resume(Resume),
}

impl Action {
    /// Whether this command is legal against the given context state.
    pub open spec fn legal(self, c: ActionContext) -> bool {
        match self {
            Action::Pause(_) => Pause::legal(c),
            Action::Resume(_) => Resume::legal(c),
        }
    }

    /// The context this command's effect produces, assuming it is legal.
    pub open spec fn applied(self, c: ActionContext) -> ActionContext {
        match self {
            Action::Pause(_) => Pause::applied(c),
            Action::Resume(_) => Resume::applied(c),
        }
    }

    /// One step of the apply-protocol as a value: the effect if the
    /// command is legal, the unchanged context if it is not.
    pub open spec fn outcome(self, c: ActionContext) -> ActionContext {
        if self.legal(c) {
            self.applied(c)
        } else {
            c
        }
    }

    /// The context after `n` repetitions of the apply-protocol with this
    /// same command.
    pub open spec fn outcome_repeated(self, c: ActionContext, n: nat) -> ActionContext
        decreases n,
    {
        if n == 0 {
            c
        } else {
            self.outcome(self.outcome_repeated(c, (n - 1) as nat))
        }
    }

    /// The legality predicate of this command: pure, deterministic, and
    /// evaluated solely against the context's current observable state.
    pub fn is_legal(&self, c: &ActionContext) -> (r: bool)
        ensures
            r == self.legal(*c),
    {
        match self {
            Action::Pause(a) => a.is_legal(c),
            Action::Resume(a) => a.is_legal(c),
        }
    }

    /// The execution effect of this command. May only be invoked when
    /// `is_legal` holds of the same context state; it then mutates the
    /// context in place, completely and infallibly.
    pub fn execute(&self, c: &mut ActionContext)
        requires
            self.legal(*old(c)),
        ensures
            *final(c) == self.applied(*old(c)),
    {
        match self {
            Action::Pause(a) => a.execute(c),
            Action::Resume(a) => a.execute(c),
        }
    }
}

/// The apply-protocol, the engine's one entry point: evaluate the
/// command's legality against the context's current state, and only on
/// success invoke its effect. An illegal command is rejected with
/// `IllegalActionError` and the context is left unchanged — rejection
/// never corrupts the context, and the engine stays usable for the next
/// command.
pub fn apply(action: &Action, c: &mut ActionContext) -> (r: Result<(), IllegalActionError>)
    ensures
        *final(c) == action.outcome(*old(c)),
        r == (if action.legal(*old(c)) {
            Ok::<(), IllegalActionError>(())
        } else {
            Err::<(), IllegalActionError>(IllegalActionError)
        }),
        !action.legal(*old(c)) ==> *final(c) == *old(c),
{
    if action.is_legal(c) {
        action.execute(c);
        Ok(())
    } else {
        Err(IllegalActionError)
    }
}

} // verus!
