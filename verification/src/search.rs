//! Control of the coupling-ratio search of the spatial solver.
//!
//! The spatial solver runs two loops over the ratio between vertical and
//! horizontal turning radius: an expansion phase that doubles the ratio
//! until the vertical path is feasible, and a refinement phase that
//! step-searches around the accepted ratio until the step size becomes
//! negligible.  Both loops share one control discipline: each iteration
//! makes a floating-point observation (is this ratio feasible? has the step
//! size converged?) and either stops on it, goes another round, or gives up
//! because the iteration cap is exhausted.  The observations are made by the
//! caller; the discipline — when to proceed, when to stop, when to give up —
//! is decided and proved here.

use vstd::prelude::*;

verus! {

/// The iteration cap of each search phase.
pub const MAX_ITER: u32 = 1000;

/// The verdict of one search iteration: go another round, stop on the
/// current state (the stopping observation held before the cap was reached),
/// or give up because the cap is exhausted.
#[derive(Clone, Copy, Debug, PartialEq, Eq, Structural)]
pub enum SearchStep {
    Proceed,
    Accept,
    GiveUp,
}

/// The verdict as a function of the rounds already taken and the current
/// stopping observation.  The cap is checked first: a stopping observation
/// that arrives only once the cap is exhausted no longer saves the search.
pub open spec fn search_verdict(steps: nat, stop: bool) -> SearchStep {
    if steps >= MAX_ITER {
        SearchStep::GiveUp
    } else if stop {
        SearchStep::Accept
    } else {
        SearchStep::Proceed
    }
}

/// The terminal verdict of a whole search phase, folded over a sequence of
/// stopping observations, one per iteration, starting with `steps` rounds
/// already taken.  `Proceed` means the search was still running when the
/// observations ran out.
pub open spec fn search_run(events: Seq<bool>, steps: nat) -> SearchStep
    decreases events.len(),
{
    if events.len() == 0 {
        SearchStep::Proceed
    } else {
        let v = search_verdict(steps, events[0]);
        if v is Proceed {
            search_run(events.drop_first(), steps + 1)
        } else {
            v
        }
    }
}

/// One search phase's worth of iteration control.  The caller's loop makes
/// an observation, asks `advance` for the verdict, and terminates on
/// anything but `Proceed`; the round counter is private, so a driver cannot
/// outrun the cap.
pub struct SearchGuard {
    steps: u32,
}

impl SearchGuard {
    /// The rounds taken so far.
    pub closed spec fn count(self) -> nat {
        self.steps as nat
    }

    /// A fresh guard for one search phase.
    pub fn new() -> (g: SearchGuard)
        ensures
            g.count() == 0,
    {
        SearchGuard { steps: 0 }
    }

    /// The verdict for the current iteration, given the stopping observation
    /// `stop`; counts the round exactly when the verdict is to go on.
    pub fn advance(&mut self, stop: bool) -> (v: SearchStep)
        ensures
            v == search_verdict(old(self).count(), stop),
            v is Proceed ==> final(self).count() == old(self).count() + 1,
            !(v is Proceed) ==> final(self).count() == old(self).count(),
            old(self).count() <= MAX_ITER ==> final(self).count() <= MAX_ITER,
    {
        if self.steps >= MAX_ITER {
            SearchStep::GiveUp
        } else if stop {
            SearchStep::Accept
        } else {
            self.steps = self.steps + 1;
            SearchStep::Proceed
        }
    }
}

/// A search phase always halts within its iteration cap: given more than
/// `MAX_ITER` observations past the rounds already taken, the verdict is
/// terminal — `Accept` or `GiveUp`, never still `Proceed`.
pub proof fn lemma_search_halts_within_cap(events: Seq<bool>, steps: nat)
    requires
        events.len() >= 1,
        events.len() + steps > MAX_ITER,
    ensures
        search_run(events, steps) !is Proceed,
    decreases events.len(),
{
    if steps < MAX_ITER && !events[0] {
        lemma_search_halts_within_cap(events.drop_first(), steps + 1);
    }
}

/// If no observation ever stops the search — no ratio yields a feasible
/// vertical path — the search gives up at the cap rather than looping on.
pub proof fn lemma_no_stop_gives_up(events: Seq<bool>, steps: nat)
    requires
        events.len() >= 1,
        events.len() + steps > MAX_ITER,
        forall|i: int| 0 <= i < events.len() ==> !events[i],
    ensures
        search_run(events, steps) == SearchStep::GiveUp,
    decreases events.len(),
{
    if steps < MAX_ITER {
        assert(!events[0]);
        let rest = events.drop_first();
        assert forall|i: int| 0 <= i < rest.len() implies !rest[i] by {
            assert(rest[i] == events[i + 1]);
        }
        lemma_no_stop_gives_up(rest, steps + 1);
    }
}

/// A search phase whose very first observation stops it accepts at once,
/// with no further rounds: with wide-open flight-angle bounds the expansion
/// phase succeeds on its first proposed ratio.
pub proof fn lemma_first_stop_accepts(events: Seq<bool>)
    requires
        events.len() >= 1,
        events[0],
    ensures
        search_run(events, 0) == SearchStep::Accept,
{
}

} // verus!
