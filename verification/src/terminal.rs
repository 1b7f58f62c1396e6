//! Coalescing of update notifications between terminal observations.

use vstd::prelude::*;

verus! {

/// Whether the application has observed the current terminal state.
///
/// A terminal starts unobserved. Observing it enables one wakeup: the first
/// subsequent mutation that applies an update wakes the application, and
/// further updates are coalesced until the terminal is observed again.
pub struct UpdateTracker {
    /// Whether the current terminal state has been observed.
    observed: bool,
}

/// One operation on the tracker: an observation, or a mutation that applied
/// an update or not.
pub enum TrackerOp {
    /// The terminal state was acquired for reading.
    Observe,
    /// The terminal was mutated; the flag tells whether an update applied.
    Mutate(bool),
}

/// Whether a mutation wakes the application.
pub open spec fn mutation_wakes(observed: bool, updated: bool) -> bool {
    updated && observed
}

/// The observation status after a mutation.
pub open spec fn observed_after_mutation(observed: bool, updated: bool) -> bool {
    observed && !updated
}

/// The observation status after a sequence of operations.
pub open spec fn observed_after(observed: bool, ops: Seq<TrackerOp>) -> bool
    decreases ops.len(),
{
    if ops.len() == 0 {
        observed
    } else {
        let before = observed_after(observed, ops.drop_last());
        match ops.last() {
            TrackerOp::Observe => true,
            TrackerOp::Mutate(updated) => observed_after_mutation(before, updated),
        }
    }
}

/// The number of wakeups produced by a sequence of operations.
pub open spec fn wakeups(observed: bool, ops: Seq<TrackerOp>) -> nat
    decreases ops.len(),
{
    if ops.len() == 0 {
        0
    } else {
        let before = observed_after(observed, ops.drop_last());
        let earlier = wakeups(observed, ops.drop_last());
        match ops.last() {
            TrackerOp::Observe => earlier,
            TrackerOp::Mutate(updated) => if mutation_wakes(before, updated) {
                earlier + 1
            } else {
                earlier
            },
        }
    }
}

/// Whether a sequence of operations contains no observation.
pub open spec fn unobserved_ops(ops: Seq<TrackerOp>) -> bool {
    forall|i: int| 0 <= i < ops.len() ==> !(#[trigger] ops[i] is Observe)
}

/// Whether a sequence of operations contains a mutation that applied an
/// update.
pub open spec fn has_update(ops: Seq<TrackerOp>) -> bool {
    exists|i: int| 0 <= i < ops.len() && #[trigger] ops[i] == TrackerOp::Mutate(true)
}

impl UpdateTracker {
    /// Whether the current state has been observed.
    pub closed spec fn is_observed(&self) -> bool {
        self.observed
    }

    /// A tracker for a newly created terminal, which starts unobserved.
    pub fn new() -> (tracker: Self)
        ensures
            !tracker.is_observed(),
    {
        UpdateTracker { observed: false }
    }

    /// Record that the terminal state was acquired for reading.
    pub fn observe(&mut self)
        ensures
            final(self).is_observed(),
    {
        self.observed = true;
    }

    /// Whether the current state has been observed.
    pub fn observed(&self) -> (observed: bool)
        ensures
            observed == self.is_observed(),
    {
        self.observed
    }

    /// Record a mutation of the terminal, returning whether it must wake the
    /// application: it applied an update, and the preceding state was observed.
    /// An applied update resets the observation status.
    pub fn record_mutation(&mut self, updated: bool) -> (wake: bool)
        ensures
            wake == mutation_wakes(old(self).is_observed(), updated),
            final(self).is_observed() == observed_after_mutation(old(self).is_observed(), updated),
    {
        let wake = updated && self.observed;
        if updated {
            self.observed = false;
        }
        wake
    }
}

/// Updates coalesce until the terminal is observed again: a run of mutations
/// without an observation wakes the application at most once, exactly when
/// the run started from an observed state and some mutation applied an
/// update; from an unobserved state, such as a newly created terminal, it
/// never wakes.
pub proof fn law_updates_coalesce_until_observed(observed: bool, ops: Seq<TrackerOp>)
    requires
        unobserved_ops(ops),
    ensures
        wakeups(observed, ops) == (if observed && has_update(ops) { 1nat } else { 0nat }),
        observed_after(observed, ops) == (observed && !has_update(ops)),
    decreases ops.len(),
{
    if ops.len() > 0 {
        let init = ops.drop_last();
        assert forall|i: int| 0 <= i < init.len() implies !(#[trigger] init[i] is Observe) by {
            assert(init[i] == ops[i]);
        }
        law_updates_coalesce_until_observed(observed, init);
        assert(!(ops[ops.len() - 1] is Observe));
        if has_update(init) {
            let i = choose|i: int| 0 <= i < init.len() && #[trigger] init[i] == TrackerOp::Mutate(true);
            assert(ops[i] == TrackerOp::Mutate(true));
        }
        if has_update(ops) {
            let i = choose|i: int| 0 <= i < ops.len() && #[trigger] ops[i] == TrackerOp::Mutate(true);
            if i < ops.len() - 1 {
                assert(init[i] == TrackerOp::Mutate(true));
            }
        }
        if ops.last() == TrackerOp::Mutate(true) {
            assert(ops[ops.len() - 1] == TrackerOp::Mutate(true));
        }
    }
}

/// Observation re-enables exactly one wakeup: after an observation, the
/// next mutation that applies an update wakes the application.
pub proof fn law_observation_enables_next_wakeup(observed: bool, ops: Seq<TrackerOp>)
    ensures
        observed_after(observed, ops.push(TrackerOp::Observe)),
        wakeups(observed, ops.push(TrackerOp::Observe).push(TrackerOp::Mutate(true)))
            == wakeups(observed, ops) + 1,
        wakeups(observed, ops.push(TrackerOp::Observe).push(TrackerOp::Mutate(false)))
            == wakeups(observed, ops),
{
    let observed_ops = ops.push(TrackerOp::Observe);
    assert(observed_ops.drop_last() =~= ops);
    assert(observed_ops.push(TrackerOp::Mutate(true)).drop_last() =~= observed_ops);
    assert(observed_ops.push(TrackerOp::Mutate(false)).drop_last() =~= observed_ops);
    assert(observed_after(observed, observed_ops));
    assert(wakeups(observed, observed_ops) == wakeups(observed, ops));
    let woken = observed_ops.push(TrackerOp::Mutate(true));
    assert(woken.last() == TrackerOp::Mutate(true));
    assert(wakeups(observed, woken) == wakeups(observed, observed_ops) + 1);
    let idle = observed_ops.push(TrackerOp::Mutate(false));
    assert(idle.last() == TrackerOp::Mutate(false));
    assert(wakeups(observed, idle) == wakeups(observed, observed_ops));
}

} // verus!
