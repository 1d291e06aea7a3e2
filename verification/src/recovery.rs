//! Recovery measurement: after a perturbation the agent is stepped until it
//! has stayed within tolerance of its homeostatic target for several
//! consecutive steps, or until a step limit is reached. The caller performs
//! each step and tells the monitor whether the agent was within tolerance.
use vstd::prelude::*;

verus! {

/// Consecutive in-tolerance steps that count as a recovery.
pub const RECOVERY_STABLE_STEPS: usize = 5;

/// Steps after which the measurement gives up.
pub const RECOVERY_MAX_STEPS: usize = 1000;

/// Length of the run of in-tolerance observations at the end of `h`.
pub open spec fn trailing_run(h: Seq<bool>) -> nat
    decreases h.len(),
{
    if h.len() == 0 {
        0
    } else if h.last() {
        trailing_run(h.drop_last()) + 1
    } else {
        0
    }
}

/// Whether a measurement with these observations is over.
pub open spec fn measurement_done(h: Seq<bool>) -> bool {
    trailing_run(h) >= RECOVERY_STABLE_STEPS || h.len() >= RECOVERY_MAX_STEPS
}

/// Counts the steps of a recovery measurement and the current run of
/// in-tolerance steps.
pub struct RecoveryMonitor {
    steps: usize,
    stable: usize,
    history: Ghost<Seq<bool>>,
}

impl View for RecoveryMonitor {
    type V = Seq<bool>;

    /// The observations so far, oldest first: `true` for a step that ended
    /// within tolerance.
    closed spec fn view(&self) -> Seq<bool> {
        self.history@
    }
}

impl RecoveryMonitor {
    pub closed spec fn wf(self) -> bool {
        &&& self.steps == self.history@.len()
        &&& self.stable == trailing_run(self.history@)
        &&& self.steps <= RECOVERY_MAX_STEPS
    }

    /// A measurement with no step taken yet.
    pub fn new() -> (m: RecoveryMonitor)
        ensures
            m.wf(),
            m@ == Seq::<bool>::empty(),
    {
        RecoveryMonitor { steps: 0, stable: 0, history: Ghost(Seq::empty()) }
    }

    /// Whether the measurement is over: recovered, or out of steps.
    pub fn is_done(&self) -> (done: bool)
        requires
            self.wf(),
        ensures
            done == measurement_done(self@),
            done <==> (trailing_run(self@) >= RECOVERY_STABLE_STEPS || self@.len()
                >= RECOVERY_MAX_STEPS),
            self@.len() < RECOVERY_MAX_STEPS ==> (done <==> trailing_run(self@)
                >= RECOVERY_STABLE_STEPS),
    {
        self.stable >= RECOVERY_STABLE_STEPS || self.steps >= RECOVERY_MAX_STEPS
    }

    /// Record one more step; `within_tolerance` says whether the agent ended
    /// it close enough to its target.
    pub fn observe(&mut self, within_tolerance: bool)
        requires
            old(self).wf(),
            !measurement_done(old(self)@),
        ensures
            final(self).wf(),
            final(self)@ == old(self)@.push(within_tolerance),
    {
        proof {
            assert(self.history@.push(within_tolerance).drop_last() =~= self.history@);
        }
        self.steps = self.steps + 1;
        if within_tolerance {
            self.stable = self.stable + 1;
        } else {
            self.stable = 0;
        }
        self.history = Ghost(self.history@.push(within_tolerance));
    }

    /// Steps taken so far.
    pub fn steps(&self) -> (n: usize)
        requires
            self.wf(),
        ensures
            n == self@.len(),
    {
        self.steps
    }

    /// Current run of consecutive in-tolerance steps.
    pub fn stable_run(&self) -> (n: usize)
        requires
            self.wf(),
        ensures
            n == trailing_run(self@),
    {
        self.stable
    }
}

/// The trailing run counts exactly the last observations that were within
/// tolerance: all of the last `trailing_run(h)` are, and the one before them
/// (if any) is not.
pub proof fn law_trailing_run_is_recent_stability(h: Seq<bool>)
    ensures
        trailing_run(h) <= h.len(),
        forall|i: int| h.len() - trailing_run(h) <= i < h.len() ==> #[trigger] h[i],
        trailing_run(h) < h.len() ==> !h[h.len() - trailing_run(h) - 1],
    decreases h.len(),
{
    if h.len() > 0 {
        law_trailing_run_is_recent_stability(h.drop_last());
        if h.last() {
            assert forall|i: int| h.len() - trailing_run(h) <= i < h.len() implies #[trigger] h[i] by {
                if i < h.len() - 1 {
                    assert(h[i] == h.drop_last()[i]);
                }
            }
            if trailing_run(h) < h.len() {
                assert(h[h.len() - trailing_run(h) - 1] == h.drop_last()[h.drop_last().len()
                    - trailing_run(h.drop_last()) - 1]);
            }
        }
    }
}

/// A measurement that has not reached its step limit ends only after
/// `RECOVERY_STABLE_STEPS` consecutive in-tolerance steps.
pub proof fn law_done_means_recovered_or_limit(h: Seq<bool>)
    requires
        measurement_done(h),
        h.len() < RECOVERY_MAX_STEPS,
    ensures
        h.len() >= RECOVERY_STABLE_STEPS,
        forall|i: int| h.len() - RECOVERY_STABLE_STEPS <= i < h.len() ==> #[trigger] h[i],
{
    law_trailing_run_is_recent_stability(h);
}

/// Before the step limit, a measurement is over exactly when the last
/// `RECOVERY_STABLE_STEPS` observations were all within tolerance; at the
/// step limit it is over in any case.
pub proof fn law_done_iff_recovered_before_limit(h: Seq<bool>)
    ensures
        h.len() >= RECOVERY_MAX_STEPS ==> measurement_done(h),
        h.len() < RECOVERY_MAX_STEPS ==> (measurement_done(h) <==> (h.len()
            >= RECOVERY_STABLE_STEPS && forall|i: int|
            h.len() - RECOVERY_STABLE_STEPS <= i < h.len() ==> #[trigger] h[i])),
{
    law_trailing_run_is_recent_stability(h);
    if h.len() >= RECOVERY_STABLE_STEPS && forall|i: int|
        h.len() - RECOVERY_STABLE_STEPS <= i < h.len() ==> #[trigger] h[i] {
        lemma_recent_stability_counts(h, RECOVERY_STABLE_STEPS as nat);
    }
}

/// If the last `k` observations were all within tolerance, the trailing
/// run is at least `k`.
pub proof fn lemma_recent_stability_counts(h: Seq<bool>, k: nat)
    requires
        k <= h.len(),
        forall|i: int| h.len() - k <= i < h.len() ==> #[trigger] h[i],
    ensures
        trailing_run(h) >= k,
    decreases k,
{
    if k > 0 {
        let t = h.drop_last();
        assert(h[h.len() - 1]);
        assert forall|i: int| t.len() - (k - 1) <= i < t.len() implies #[trigger] t[i] by {
            assert(t[i] == h[i]);
        }
        lemma_recent_stability_counts(t, (k - 1) as nat);
    }
}

/// An out-of-tolerance observation restarts the count, an in-tolerance one
/// extends it by one.
pub proof fn law_trailing_run_step(h: Seq<bool>, b: bool)
    ensures
        trailing_run(h.push(b)) == (if b {
            trailing_run(h) + 1
        } else {
            0
        }),
{
    assert(h.push(b).drop_last() =~= h);
}

} // verus!
