//! Laws of the pause/resume pair and of the apply-protocol, proved once
//! for every context.

use vstd::prelude::*;

use crate::action::Action;
use crate::context::ActionContext;
use crate::pause::Pause;
use crate::resume::Resume;

verus! {

/// Law: in every context, pausing is legal exactly when the match is not
/// paused and resuming exactly when it is — the two legality predicates
/// partition the flag's two values, so exactly one of the pair is legal
/// at any instant.
pub proof fn lemma_legality_partition(c: ActionContext)
    ensures
        Pause::legal(c) == !c.game.is_paused,
        Resume::legal(c) == c.game.is_paused,
        Pause::legal(c) != Resume::legal(c),
{
}

/// Law: a legal pause followed by the then-legal resume restores the
/// context exactly — the flag returns to its original value and every
/// other field is as it was before the pause.
pub proof fn lemma_pause_resume_round_trip(c: ActionContext)
    requires
        Pause::legal(c),
    ensures
        Resume::legal(Pause::applied(c)),
        Resume::applied(Pause::applied(c)) == c,
{
}

/// Law: rejection is idempotent — repeating an illegal command any
/// number of times never makes it legal and never moves the context.
pub proof fn lemma_rejection_idempotent(a: Action, c: ActionContext, n: nat)
    requires
        !a.legal(c),
    ensures
        a.outcome_repeated(c, n) == c,
        !a.legal(a.outcome_repeated(c, n)),
    decreases n,
{
    if n > 0 {
        lemma_rejection_idempotent(a, c, (n - 1) as nat);
    }
}

} // verus!
