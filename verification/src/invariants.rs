use vstd::prelude::*;

use crate::state::ControllerState;
use crate::types::{Mode, OutputVector};

verus! {

/// A violation of a controller invariant that must never reach a physical
/// actuator.
#[derive(Clone, Copy, Debug, PartialEq, Eq, Structural)]
pub enum InvariantViolation {
    HeatCoolConflict,
    UnarmedOutputEnergized,
    FaultedOutputEnergized,
    OffModeConditioningEnergized,
}

/// The first hard invariant that `s` violates, in the order: heat/cool
/// conflict, energized while unarmed, energized while faulted, W or Y
/// energized in mode OFF.
pub open spec fn state_violation(s: ControllerState) -> Option<InvariantViolation> {
    if s.outputs.w && s.outputs.y {
        Some(InvariantViolation::HeatCoolConflict)
    } else if !s.actuator_armed && !s.outputs.all_off() {
        Some(InvariantViolation::UnarmedOutputEnergized)
    } else if s.critical_fault is Some && !s.outputs.all_off() {
        Some(InvariantViolation::FaultedOutputEnergized)
    } else if s.mode == Mode::Off && (s.outputs.w || s.outputs.y) {
        Some(InvariantViolation::OffModeConditioningEnergized)
    } else {
        None
    }
}

/// All hard state/output invariants hold.
pub open spec fn state_is_safe(s: ControllerState) -> bool {
    state_violation(s) is None
}

/// Checks invariants that depend only on a logical output vector: heating and
/// cooling may not be called together.
pub fn validate_output_vector(outputs: OutputVector) -> (r: Result<(), InvariantViolation>)
    ensures
        r == (if outputs.heat_cool_conflict() {
            Err(InvariantViolation::HeatCoolConflict)
        } else {
            Ok(())
        }),
{
    if outputs.w && outputs.y {
        Err(InvariantViolation::HeatCoolConflict)
    } else {
        Ok(())
    }
}

/// Checks safety invariants observable from a complete controller state and
/// returns the first one violated.
pub fn validate_state(state: &ControllerState) -> (r: Result<(), InvariantViolation>)
    ensures
        r == (match state_violation(*state) {
            Some(v) => Err(v),
            None => Ok(()),
        }),
{
    if state.outputs.w && state.outputs.y {
        return Err(InvariantViolation::HeatCoolConflict);
    }
    if !state.actuator_armed && !state.outputs.is_all_off() {
        return Err(InvariantViolation::UnarmedOutputEnergized);
    }
    if state.critical_fault.is_some() && !state.outputs.is_all_off() {
        return Err(InvariantViolation::FaultedOutputEnergized);
    }
    if state.mode == Mode::Off && (state.outputs.w || state.outputs.y) {
        return Err(InvariantViolation::OffModeConditioningEnergized);
    }
    Ok(())
}

} // verus!
