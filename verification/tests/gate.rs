use being32::gate::{GateReason, RitualGate, DEFAULT_REFRACTORY_STEPS};

#[test]
fn fresh_gate_opens_on_healthy_step() {
    let mut gate = RitualGate::new();
    assert_eq!(gate.refractory_steps, 40);
    assert_eq!(gate.refractory_remaining(), 0);
    let (open, reason) = gate.advance(false, false);
    assert!(open);
    assert_eq!(reason, GateReason::GateOpen);
    assert_eq!(reason.as_str(), "GATE_OPEN");
}

#[test]
fn exhausted_budget_closes_gate() {
    let mut gate = RitualGate::new();
    let (open, reason) = gate.advance(true, false);
    assert!(!open);
    assert_eq!(reason.as_str(), "METABOLIC_EXHAUSTION");
    // A closed step is no exertion.
    assert_eq!(gate.refractory_remaining(), 0);
}

#[test]
fn settlement_outside_band_closes_gate() {
    let mut gate = RitualGate::new();
    let (open, reason) = gate.advance(false, true);
    assert!(!open);
    assert_eq!(reason.as_str(), "SETTLEMENT_INSTABILITY");
}

#[test]
fn second_step_after_exertion_is_refractory() {
    let mut gate = RitualGate::new();
    let (open1, _) = gate.advance(false, false);
    assert!(open1);
    let (open2, reason2) = gate.advance(false, false);
    assert!(!open2);
    assert_eq!(reason2.as_str(), "REFRACTORY_ACTIVE");
}

#[test]
fn refractory_counter_counts_down_after_exertion() {
    let mut gate = RitualGate::new();
    let (open, _) = gate.advance(false, false);
    assert!(open);
    assert_eq!(gate.refractory_remaining(), 40);
    for k in 1..=40u32 {
        gate.tick();
        assert_eq!(gate.refractory_remaining(), 40 - k);
    }
    assert_eq!(gate.refractory_remaining(), 0);
}

#[test]
fn gate_stays_closed_for_the_whole_refractory_period() {
    let mut gate = RitualGate::new();
    assert!(gate.advance(false, false).0);
    for _ in 0..(DEFAULT_REFRACTORY_STEPS - 1) {
        let (open, reason) = gate.advance(false, false);
        assert!(!open);
        assert_eq!(reason, GateReason::RefractoryActive);
    }
    let (open, reason) = gate.advance(false, false);
    assert!(open);
    assert_eq!(reason, GateReason::GateOpen);
}

#[test]
fn exhaustion_is_reported_before_instability_and_refractory() {
    let mut gate = RitualGate::new();
    assert!(gate.advance(false, false).0);
    assert_eq!(gate.check(true, true), (false, GateReason::MetabolicExhaustion));
    assert_eq!(gate.check(false, true), (false, GateReason::SettlementInstability));
    assert_eq!(gate.check(false, false), (false, GateReason::RefractoryActive));
}

#[test]
fn check_does_not_advance_the_counter() {
    let mut gate = RitualGate::new();
    gate.exert();
    assert_eq!(gate.refractory_remaining(), 40);
    for _ in 0..10 {
        assert_eq!(gate.check(false, false).1, GateReason::RefractoryActive);
    }
    assert_eq!(gate.refractory_remaining(), 40);
}

#[test]
fn tick_saturates_on_a_fresh_gate() {
    let mut gate = RitualGate::new();
    gate.tick();
    gate.tick();
    assert_eq!(gate.refractory_remaining(), 0);
    assert_eq!(gate.check(false, false), (true, GateReason::GateOpen));
}

#[test]
fn zero_refractory_gate_opens_every_healthy_step() {
    let mut gate = RitualGate::new();
    gate.refractory_steps = 0;
    for _ in 0..5 {
        assert!(gate.advance(false, false).0);
    }
}

#[test]
fn reason_labels() {
    assert_eq!(GateReason::MetabolicExhaustion.as_str(), "METABOLIC_EXHAUSTION");
    assert_eq!(GateReason::SettlementInstability.as_str(), "SETTLEMENT_INSTABILITY");
    assert_eq!(GateReason::RefractoryActive.as_str(), "REFRACTORY_ACTIVE");
    assert_eq!(GateReason::GateOpen.as_str(), "GATE_OPEN");
    assert_eq!(GateReason::Uninitialized.as_str(), "UNINITIALIZED");
}
