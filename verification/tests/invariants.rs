use thermostat::{
    ControllerState, CriticalFault, InvariantViolation, Mode, OutputVector, validate_output_vector,
    validate_state,
};

#[test]
fn conflicting_output_vector_is_rejected() {
    let output = OutputVector {
        w: true,
        y: true,
        g: false,
    };
    assert_eq!(
        validate_output_vector(output),
        Err(InvariantViolation::HeatCoolConflict)
    );
}

#[test]
fn boot_state_satisfies_invariants() {
    assert_eq!(validate_state(&ControllerState::new(0)), Ok(()));
}

#[test]
fn faulted_energized_state_is_rejected() {
    let mut state = ControllerState::new(0);
    state.actuator_armed = true;
    state.critical_fault = Some(CriticalFault::External);
    state.outputs.w = true;
    assert_eq!(
        validate_state(&state),
        Err(InvariantViolation::FaultedOutputEnergized)
    );
}

#[test]
fn unarmed_energized_state_is_rejected() {
    let mut state = ControllerState::new(0);
    state.outputs.g = true;
    assert_eq!(
        validate_state(&state),
        Err(InvariantViolation::UnarmedOutputEnergized)
    );
}

#[test]
fn off_mode_rejects_each_conditioning_contact_independently() {
    let mut state = ControllerState::new(0);
    state.actuator_armed = true;

    state.outputs.w = true;
    assert_eq!(
        validate_state(&state),
        Err(InvariantViolation::OffModeConditioningEnergized)
    );

    state.outputs = OutputVector {
        w: false,
        y: true,
        g: false,
    };
    assert_eq!(
        validate_state(&state),
        Err(InvariantViolation::OffModeConditioningEnergized)
    );
}

#[test]
fn complete_state_rejects_simultaneous_heat_and_cool_first() {
    let mut state = ControllerState::new(0);
    state.actuator_armed = true;
    state.mode = Mode::Auto;
    state.outputs = OutputVector {
        w: true,
        y: true,
        g: true,
    };
    assert_eq!(
        validate_state(&state),
        Err(InvariantViolation::HeatCoolConflict)
    );
}

#[test]
fn valid_output_vectors_are_accepted() {
    for bits in 0u8..8 {
        let output = OutputVector {
            w: bits & 1 != 0,
            y: bits & 2 != 0,
            g: bits & 4 != 0,
        };
        let expected = if output.w && output.y {
            Err(InvariantViolation::HeatCoolConflict)
        } else {
            Ok(())
        };
        assert_eq!(validate_output_vector(output), expected);
        assert_eq!(output.has_heat_cool_conflict(), output.w && output.y);
        assert_eq!(output.is_all_off(), bits == 0);
    }
}

#[test]
fn armed_energized_g_in_off_mode_is_accepted() {
    let mut state = ControllerState::new(0);
    state.actuator_armed = true;
    state.outputs.g = true;
    assert_eq!(validate_state(&state), Ok(()));
}
