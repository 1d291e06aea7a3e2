//! Ritual governance gate: the anti-grind clause that keeps the agent from
//! exerting itself without a metabolic budget, outside its settlement band,
//! or before its refractory period has run out.
use vstd::prelude::*;

verus! {

/// Default length of the refractory period, in steps.
pub const DEFAULT_REFRACTORY_STEPS: u32 = 40;

/// Why the ritual gate is open or closed.
#[derive(Clone, Copy, Debug, PartialEq, Eq, Structural)]
pub enum GateReason {
    /// The metabolic budget is below the threshold.
    MetabolicExhaustion,
    /// Settlement lies outside the dignity band.
    SettlementInstability,
    /// The refractory period after the last exertion has not run out.
    RefractoryActive,
    /// Every condition holds: action is authorised.
    GateOpen,
    /// No step has been evaluated yet.
    Uninitialized,
}

impl GateReason {
    /// The label under which the reason is reported.
    pub open spec fn label(self) -> Seq<char> {
        match self {
            GateReason::MetabolicExhaustion => "METABOLIC_EXHAUSTION"@,
            GateReason::SettlementInstability => "SETTLEMENT_INSTABILITY"@,
            GateReason::RefractoryActive => "REFRACTORY_ACTIVE"@,
            GateReason::GateOpen => "GATE_OPEN"@,
            GateReason::Uninitialized => "UNINITIALIZED"@,
        }
    }

    /// The label under which the reason is reported.
    pub fn as_str(&self) -> (s: &'static str)
        ensures
            s@ == self.label(),
            *self == GateReason::MetabolicExhaustion ==> s@ == "METABOLIC_EXHAUSTION"@,
            *self == GateReason::SettlementInstability ==> s@ == "SETTLEMENT_INSTABILITY"@,
            *self == GateReason::RefractoryActive ==> s@ == "REFRACTORY_ACTIVE"@,
            *self == GateReason::GateOpen ==> s@ == "GATE_OPEN"@,
            *self == GateReason::Uninitialized ==> s@ == "UNINITIALIZED"@,
    {
        match self {
            GateReason::MetabolicExhaustion => "METABOLIC_EXHAUSTION",
            GateReason::SettlementInstability => "SETTLEMENT_INSTABILITY",
            GateReason::RefractoryActive => "REFRACTORY_ACTIVE",
            GateReason::GateOpen => "GATE_OPEN",
            GateReason::Uninitialized => "UNINITIALIZED",
        }
    }
}

/// One step of the counter: add one, staying at `u32::MAX` once there.
pub open spec fn saturating_succ(n: u32) -> u32 {
    if n == u32::MAX {
        n
    } else {
        (n + 1) as u32
    }
}

/// The refractory part of the ritual gate: how long a rest is required after
/// an exertion, and how many steps have passed since the last one.
///
/// The metabolic threshold and the dignity band are real-valued; the caller
/// compares the budget and the settlement against them and passes the
/// outcome to `check` and `advance`.
#[derive(Clone, Debug)]
pub struct RitualGate {
    /// Minimum number of steps between exertions.
    pub refractory_steps: u32,
    steps_since_exertion: u32,
}

impl RitualGate {
    /// Steps passed since the last exertion (saturating at `u32::MAX`).
    pub closed spec fn elapsed(self) -> u32 {
        self.steps_since_exertion
    }

    /// Length of the refractory period.
    pub closed spec fn refractory(self) -> u32 {
        self.refractory_steps
    }

    /// Steps still to wait before the refractory period is over.
    pub open spec fn remaining(self) -> nat {
        if self.elapsed() <= self.refractory() {
            (self.refractory() - self.elapsed()) as nat
        } else {
            0
        }
    }

    /// The ritual gate after one more step has passed.
    pub closed spec fn with_tick(self) -> RitualGate {
        RitualGate {
            refractory_steps: self.refractory_steps,
            steps_since_exertion: saturating_succ(self.steps_since_exertion),
        }
    }

    /// The ritual gate right after an exertion.
    pub closed spec fn with_exertion(self) -> RitualGate {
        RitualGate { refractory_steps: self.refractory_steps, steps_since_exertion: 0 }
    }

    /// The verdict of the ritual gate: exhaustion is checked first, then the
    /// settlement band, then the refractory period.
    pub open spec fn decision(self, exhausted: bool, unstable: bool) -> GateReason {
        if exhausted {
            GateReason::MetabolicExhaustion
        } else if unstable {
            GateReason::SettlementInstability
        } else if self.elapsed() < self.refractory() {
            GateReason::RefractoryActive
        } else {
            GateReason::GateOpen
        }
    }

    /// Whether one step of the ritual gate, with these outcomes, authorises action.
    pub open spec fn opens(self, exhausted: bool, unstable: bool) -> bool {
        self.with_tick().decision(exhausted, unstable) == GateReason::GateOpen
    }

    /// The ritual gate after one step: tick, evaluate, and mark the exertion when
    /// the ritual gate opened.
    pub open spec fn after_step(self, exhausted: bool, unstable: bool) -> RitualGate {
        if self.opens(exhausted, unstable) {
            self.with_tick().with_exertion()
        } else {
            self.with_tick()
        }
    }

    /// The ritual gate after a run of steps, each given by the outcomes
    /// (exhausted, unstable).
    pub open spec fn run(self, events: Seq<(bool, bool)>) -> RitualGate
        decreases events.len(),
    {
        if events.len() == 0 {
            self
        } else {
            self.after_step(events[0].0, events[0].1).run(events.drop_first())
        }
    }

    /// Whether the ritual gate opens at some step of a run.
    pub open spec fn opens_during(self, events: Seq<(bool, bool)>) -> bool
        decreases events.len(),
    {
        if events.len() == 0 {
            false
        } else {
            self.opens(events[0].0, events[0].1) || self.after_step(
                events[0].0,
                events[0].1,
            ).opens_during(events.drop_first())
        }
    }

    /// The ritual gate after `n` ticks without evaluation.
    pub open spec fn after_ticks(self, n: nat) -> RitualGate
        decreases n,
    {
        if n == 0 {
            self
        } else {
            self.after_ticks((n - 1) as nat).with_tick()
        }
    }

    /// A gate with the default refractory period that has never been
    /// exerted, so that its refractory period is already over.
    pub fn new() -> (g: RitualGate)
        ensures
            g.refractory() == DEFAULT_REFRACTORY_STEPS,
            g.elapsed() == u32::MAX,
            g.remaining() == 0,
    {
        RitualGate { refractory_steps: DEFAULT_REFRACTORY_STEPS, steps_since_exertion: u32::MAX }
    }

    /// Evaluate the ritual gate. `exhausted` says that the metabolic budget is below
    /// the threshold; `unstable` that settlement lies outside the dignity
    /// band. Returns whether the ritual gate is open, and why.
    pub fn check(&self, exhausted: bool, unstable: bool) -> (r: (bool, GateReason))
        ensures
            r.1 == self.decision(exhausted, unstable),
            r.0 <==> r.1 == GateReason::GateOpen,
            exhausted ==> r == (false, GateReason::MetabolicExhaustion),
            !exhausted && unstable ==> r == (false, GateReason::SettlementInstability),
            !exhausted && !unstable && self.elapsed() < self.refractory() ==> r == (
                false,
                GateReason::RefractoryActive,
            ),
            !exhausted && !unstable && self.elapsed() >= self.refractory() ==> r == (
                true,
                GateReason::GateOpen,
            ),
            r.0 <==> (!exhausted && !unstable && self.elapsed() >= self.refractory()),
    {
        if exhausted {
            return (false, GateReason::MetabolicExhaustion);
        }
        if unstable {
            return (false, GateReason::SettlementInstability);
        }
        if self.steps_since_exertion < self.refractory_steps {
            return (false, GateReason::RefractoryActive);
        }
        (true, GateReason::GateOpen)
    }

    /// Advance the refractory counter by one step.
    pub fn tick(&mut self)
        ensures
            *final(self) == old(self).with_tick(),
            final(self).refractory() == old(self).refractory(),
            final(self).elapsed() == saturating_succ(old(self).elapsed()),
            old(self).elapsed() < u32::MAX ==> final(self).elapsed() == old(self).elapsed() + 1,
            old(self).elapsed() == u32::MAX ==> final(self).elapsed() == u32::MAX,
    {
        self.steps_since_exertion = self.steps_since_exertion.saturating_add(1);
    }

    /// Mark an exertion: the refractory period starts again.
    pub fn exert(&mut self)
        ensures
            *final(self) == old(self).with_exertion(),
            final(self).refractory() == old(self).refractory(),
            final(self).elapsed() == 0,
            final(self).remaining() == old(self).refractory(),
    {
        self.steps_since_exertion = 0;
    }

    /// Steps remaining in the refractory period (0 when ready).
    pub fn refractory_remaining(&self) -> (r: u32)
        ensures
            r == self.remaining(),
            self.elapsed() <= self.refractory() ==> r == self.refractory() - self.elapsed(),
            self.elapsed() >= self.refractory() ==> r == 0,
            r == 0 <==> self.elapsed() >= self.refractory(),
            r <= self.refractory(),
    {
        self.refractory_steps.saturating_sub(self.steps_since_exertion)
    }

    /// One step of the embodied loop's governance: tick the counter,
    /// evaluate the ritual gate, and mark an exertion when it opened.
    pub fn advance(&mut self, exhausted: bool, unstable: bool) -> (r: (bool, GateReason))
        ensures
            r.1 == old(self).with_tick().decision(exhausted, unstable),
            r.0 <==> r.1 == GateReason::GateOpen,
            r.0 == old(self).opens(exhausted, unstable),
            *final(self) == old(self).after_step(exhausted, unstable),
            final(self).refractory() == old(self).refractory(),
            final(self).elapsed() == (if r.0 {
                0
            } else {
                saturating_succ(old(self).elapsed())
            }),
            exhausted ==> r == (false, GateReason::MetabolicExhaustion),
            !exhausted && unstable ==> r == (false, GateReason::SettlementInstability),
            r.0 <==> (!exhausted && !unstable && saturating_succ(old(self).elapsed())
                >= old(self).refractory()),
            !r.0 ==> final(self).elapsed() == saturating_succ(old(self).elapsed()),
    {
        self.tick();
        let r = self.check(exhausted, unstable);
        if r.0 {
            self.exert();
        }
        r
    }
}

/// Once the ritual gate has opened, it stays closed for the next
/// `refractory_steps - 1` steps, whatever the budget and the settlement.
pub proof fn law_no_exertion_during_refractory(
    g: RitualGate,
    exhausted: bool,
    unstable: bool,
    events: Seq<(bool, bool)>,
)
    requires
        g.opens(exhausted, unstable),
        events.len() < g.refractory(),
    ensures
        !g.after_step(exhausted, unstable).opens_during(events),
{
    lemma_closed_while_refractory(g.after_step(exhausted, unstable), events);
}

/// While the counter cannot reach the refractory length, no step opens the
/// gate and each step adds one to the counter.
pub proof fn lemma_closed_while_refractory(g: RitualGate, events: Seq<(bool, bool)>)
    requires
        g.elapsed() + events.len() < g.refractory(),
    ensures
        !g.opens_during(events),
        g.run(events).elapsed() == g.elapsed() + events.len(),
        g.run(events).refractory() == g.refractory(),
    decreases events.len(),
{
    if events.len() > 0 {
        let next = g.after_step(events[0].0, events[0].1);
        assert(next.elapsed() == g.elapsed() + 1);
        lemma_closed_while_refractory(next, events.drop_first());
    }
}

/// The ritual gate is opened by any step whose outcomes are healthy once the
/// refractory period is over.
pub proof fn law_open_when_rested(g: RitualGate)
    requires
        g.with_tick().remaining() == 0,
    ensures
        g.opens(false, false),
        g.after_step(false, false).elapsed() == 0,
{
}

/// After an exertion, `n` ticks (at most the refractory length) leave
/// `refractory_steps - n` steps to wait.
pub proof fn law_refractory_countdown(g: RitualGate, n: nat)
    requires
        n <= g.refractory(),
    ensures
        g.with_exertion().after_ticks(n).remaining() == g.refractory() - n,
        g.with_exertion().after_ticks(n).refractory() == g.refractory(),
        g.with_exertion().after_ticks(n).elapsed() == n,
    decreases n,
{
    if n > 0 {
        law_refractory_countdown(g, (n - 1) as nat);
    }
}

/// An exhausted metabolic budget closes the ritual gate and is the reason
/// reported, whatever the counter, the refractory length or the settlement.
pub proof fn law_exhaustion_always_closes(g: RitualGate, unstable: bool)
    ensures
        g.decision(true, unstable) == GateReason::MetabolicExhaustion,
        !g.opens(true, unstable),
        g.after_step(true, unstable).elapsed() == saturating_succ(g.elapsed()),
        g.after_step(true, unstable).refractory() == g.refractory(),
{
}

/// With a budget, a settlement outside the dignity band closes the ritual
/// gate and is the reason reported, whatever the counter says.
pub proof fn law_instability_always_closes(g: RitualGate)
    ensures
        g.decision(false, true) == GateReason::SettlementInstability,
        !g.opens(false, true),
        g.after_step(false, true).elapsed() == saturating_succ(g.elapsed()),
{
}

/// With a budget and a settled agent, the ritual gate is open exactly when
/// the rest since the last exertion has reached the refractory length.
pub proof fn law_healthy_opens_iff_rested(g: RitualGate)
    ensures
        g.decision(false, false) == GateReason::GateOpen <==> g.elapsed() >= g.refractory(),
        g.decision(false, false) == GateReason::RefractoryActive <==> g.elapsed()
            < g.refractory(),
{
}

/// The ritual gate opens only when all three conditions hold: a budget, a
/// settled agent and the rest over.
pub proof fn law_open_needs_all_conditions(g: RitualGate, exhausted: bool, unstable: bool)
    ensures
        g.decision(exhausted, unstable) == GateReason::GateOpen <==> (!exhausted && !unstable
            && g.elapsed() >= g.refractory()),
        g.opens(exhausted, unstable) ==> !exhausted && !unstable,
{
}

/// Nothing is left to wait exactly when the rest has reached the refractory
/// length, and otherwise the difference is left.
pub proof fn law_remaining_zero_iff_rested(g: RitualGate)
    ensures
        g.remaining() == 0 <==> g.elapsed() >= g.refractory(),
        g.elapsed() < g.refractory() ==> g.remaining() + g.elapsed() == g.refractory(),
        g.remaining() <= g.refractory(),
{
}

} // verus!
