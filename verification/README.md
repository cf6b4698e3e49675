# thermostat

A deterministic safety/control state machine for a conventional 24 VAC
forced-air HVAC thermostat (W heat, Y cool, G fan), written in Verus.

- `src/model.rs` states what one controller step does (`step_of`);
  `src/controller.rs` computes it and is proved equal to the model.
- `src/laws.rs` proves the safety properties of every step: mutual exclusion of
  W and Y, de-energized when unarmed or faulted, break-before-make on family
  reversal, startup lockout / minimum off / changeover before any start,
  minimum-run honoured, fail-safe on stale sensors, backwards time and invalid
  configuration.
- `src/actuator.rs`, `src/clock.rs`, `src/scenario.rs` hold the verified parts
  of the virtual plant used for simulation.
- `app/` holds what cannot be verified: the floating-point thermal model, the
  scenario driver built on it, Celsius conversions, and the benchmark program
  (`app/main.rs`).
