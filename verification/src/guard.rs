//! The termination guard: the one value shared between the two actors that
//! may decide a spawned process's fate.
//!
//! A watcher observing natural completion and a caller requesting forced
//! termination (a preemption or a shutdown) race for the same process.
//! Whichever side resolves the guard first wins the right to act: the winner
//! either reports the outcome or sends the termination signal, and the loser
//! must do nothing — a late terminator must not signal a process id that may
//! already have been reused, and a preempted watcher must not report output
//! of a discarded process. The running engine realises the guard as one
//! atomically accessed boolean resolved with a single compare-and-exchange
//! that reports which side won, so the check and the set cannot be torn
//! apart; this module states that transition and its law.

use vstd::prelude::*;

verus! {

/// The guard of one spawned process. Initially unresolved; resolving it is a
/// one-way transition.
pub struct TerminationGuard {
    pub resolved: bool,
}

/// The resolution transition: the guard becomes resolved, and the caller wins
/// exactly when it was unresolved before.
pub open spec fn spec_resolve(g: TerminationGuard) -> (TerminationGuard, bool) {
    (TerminationGuard { resolved: true }, !g.resolved)
}

impl TerminationGuard {
    /// Whether the guard has been resolved.
    pub open spec fn is_resolved(&self) -> bool {
        self.resolved
    }

    /// A fresh guard for a newly spawned process.
    pub fn new() -> (g: Self)
        ensures
            !g.is_resolved(),
    {
        TerminationGuard { resolved: false }
    }

    /// Resolve the guard, reporting whether this caller won the race. The
    /// winner — and only the winner — may act on the process: signal it, or
    /// report its outcome.
    pub fn try_resolve(&mut self) -> (won: bool)
        ensures
            (*final(self), won) == spec_resolve(*old(self)),
    {
        let won = !self.resolved;
        self.resolved = true;
        won
    }

    /// Whether the guard has been resolved, as an executable query.
    pub fn read_resolved(&self) -> (r: bool)
        ensures
            r == self.is_resolved(),
    {
        self.resolved
    }
}

/// Law: of two resolutions of one guard, in whichever order they run, the
/// second never wins; the first wins exactly when the guard was fresh, and
/// the guard stays resolved forever after. So for each process the
/// termination signal is sent at most once, an already-reported process is
/// never signalled, and a discarded process is never reported.
pub proof fn lemma_single_winner(g: TerminationGuard)
    ensures
        ({
            let (g1, w1) = spec_resolve(g);
            let (g2, w2) = spec_resolve(g1);
            &&& w1 == !g.is_resolved()
            &&& !w2
            &&& g1.is_resolved()
            &&& g2.is_resolved()
        }),
{
}

} // verus!
