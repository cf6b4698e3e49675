use vstd::prelude::*;

use crate::temperature::MilliCelsius;
use crate::types::{BlockReason, Demand, EquipmentAction, EquipmentFamily, FanMode, Mode, OutputVector};

verus! {

/// A fused control temperature together with the monotonic timestamp through
/// which it remains valid (inclusive).
#[derive(Clone, Copy, Debug, PartialEq, Eq, Structural)]
pub struct ControlTemperature {
    pub value: MilliCelsius,
    /// Monotonic timestamp through which this fused observation remains valid.
    pub valid_until_ms: u64,
}

#[derive(Clone, Copy, Debug, PartialEq, Eq, Structural)]
pub enum CriticalFault {
    External,
    NonMonotonicTime,
    OutputInvariantViolation,
}

#[derive(Clone, Copy, Debug, Default, PartialEq, Eq, Structural)]
pub enum Phase {
    #[default]
    BootSafe,
    Idle,
    Heating,
    Cooling,
    FanOnly,
    FaultSafe,
}

/// Complete controller state carried from one step to the next.
#[derive(Clone, Copy, Debug, PartialEq, Eq)]
pub struct ControllerState {
    pub mode: Mode,
    pub fan_mode: FanMode,
    pub phase: Phase,
    pub demand: Demand,
    pub action: EquipmentAction,
    pub outputs: OutputVector,
    pub block_reason: BlockReason,
    pub actuator_armed: bool,
    pub control_temperature: Option<ControlTemperature>,
    pub critical_fault: Option<CriticalFault>,
    pub booted_at_ms: u64,
    pub last_evaluated_at_ms: u64,
    pub current_action_started_at_ms: Option<u64>,
    pub last_heat_stopped_at_ms: Option<u64>,
    pub last_cool_stopped_at_ms: Option<u64>,
    pub last_family_stopped: Option<(EquipmentFamily, u64)>,
}

/// The conservative state in which a controller boots at `booted_at_ms`.
pub open spec fn boot_state(booted_at_ms: u64) -> ControllerState {
    ControllerState {
        mode: Mode::Off,
        fan_mode: FanMode::Auto,
        phase: Phase::BootSafe,
        demand: Demand::Satisfied,
        action: EquipmentAction::Idle,
        outputs: OutputVector::spec_off(),
        block_reason: BlockReason::ActuatorNotArmed,
        actuator_armed: false,
        control_temperature: None,
        critical_fault: None,
        booted_at_ms,
        last_evaluated_at_ms: booted_at_ms,
        current_action_started_at_ms: None,
        last_heat_stopped_at_ms: None,
        last_cool_stopped_at_ms: None,
        last_family_stopped: None,
    }
}

impl ControllerState {
    /// Boots de-energized, unarmed, in mode OFF with fan AUTO and no history.
    pub fn new(booted_at_ms: u64) -> (s: ControllerState)
        ensures
            s == boot_state(booted_at_ms),
    {
        ControllerState {
            mode: Mode::Off,
            fan_mode: FanMode::Auto,
            phase: Phase::BootSafe,
            demand: Demand::Satisfied,
            action: EquipmentAction::Idle,
            outputs: OutputVector::off(),
            block_reason: BlockReason::ActuatorNotArmed,
            actuator_armed: false,
            control_temperature: None,
            critical_fault: None,
            booted_at_ms,
            last_evaluated_at_ms: booted_at_ms,
            current_action_started_at_ms: None,
            last_heat_stopped_at_ms: None,
            last_cool_stopped_at_ms: None,
            last_family_stopped: None,
        }
    }
}

} // verus!
