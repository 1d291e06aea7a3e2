# being32

Verified core of the Being32 homeostatic agent.

- `src/gate.rs` — the ritual governance gate: refractory counter, the
  ordered verdict (metabolic exhaustion, settlement instability, refractory
  period, open), one governance step per loop iteration, and the laws that
  a ritual gate cannot open twice within a refractory period and counts down
  after an exertion.
- `src/recovery.rs` — the recovery monitor that times the return to the
  homeostatic basin (five consecutive in-tolerance steps, at most 1000 steps).
- `src/protocol.rs` — the refusal stub of the CMAP protocol.
- `app/` — the real-valued parts (Van der Pol regulator, ISE channels,
  spectral statistics), which compare floats and hand the outcomes to the
  library.
