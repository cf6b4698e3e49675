//! Deterministic thermostat safety/control state machine.
//!
//! The controller accepts explicit monotonic timestamps and validated domain
//! events and performs no I/O, so every transition is deterministic and
//! replayable. `model` states what one step does, `controller` computes it,
//! and `laws` proves the safety properties every step keeps.

mod actuator;
mod clock;
mod config;
mod controller;
mod invariants;
mod laws;
mod model;
mod scenario;
mod state;
mod temperature;
mod types;

pub use actuator::{ActuatorError, ActuatorTransition, VirtualActuator};
pub use clock::{ClockError, VirtualClock};
pub use config::{
    ComfortConfig, ConfigError, ControllerConfig, EquipmentProfile, TimingConfig, config_error,
    config_is_valid,
};
pub use controller::{TransitionRecord, step};
pub use invariants::{
    InvariantViolation, state_is_safe, state_violation, validate_output_vector, validate_state,
};
pub use laws::{
    is_safety_stop, latest, law_backwards_time_fails_safe, law_break_before_make,
    law_cooling_minimum_run_is_honoured, law_cooling_start_respects_lockouts,
    law_config_errors_name_their_violation, law_critical_fault_latches,
    law_cooling_starts_when_unblocked, law_heating_starts_when_unblocked,
    law_satisfied_cooling_ends_after_minimum_run, law_satisfied_heating_ends_after_minimum_run,
    law_valid_config_is_ordered_and_safe, step_reading, law_demand_is_monotone, law_demand_thresholds, law_stop_is_idempotent, law_deadline_is_earliest_constraint, law_deadline_is_in_the_future, law_evaluation_time_is_monotonic,
    law_heating_minimum_run_is_honoured, law_heating_start_respects_lockouts,
    law_invalid_config_fails_closed, law_stale_sensor_fails_safe,
    law_start_waits_for_longest_constraint, law_step_is_safe, law_unarmed_is_boot_safe,
    law_user_off_stops_conditioning, lemma_boot_state_is_safe, outputs_follow_action,
};
pub use model::{Event, Transition, outputs_of, step_of};
pub use scenario::{
    ScenarioError, ThermalModelError, apply_scenario_event, arm_controller, arming_events,
    restart_controller, scenario_record, state_after_events,
};
pub use state::{ControlTemperature, ControllerState, CriticalFault, Phase, boot_state};
pub use temperature::{MAX_MILLI_CELSIUS, MIN_MILLI_CELSIUS, MilliCelsius, TemperatureError};
pub use types::{
    BlockReason, Demand, EquipmentAction, EquipmentFamily, FanMode, Mode, OutputVector,
};
mod reference;
pub use reference::{
    Command, ReferenceModel, agrees_at, command_event, controller_after, corresponds,
    history_not_after, law_armed_boot_corresponds, law_step_matches_reference,
    law_trace_matches_reference, reference_after, reference_apply, reference_demand,
    reference_outputs, zero_timer_goodman,
};
