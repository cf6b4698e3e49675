use thermostat::{
    BlockReason, ComfortConfig, ControllerConfig, ControllerState, CriticalFault, EquipmentAction,
    EquipmentProfile, Event, FanMode, MilliCelsius, Mode, OutputVector, Phase, TimingConfig, step,
};

fn mc(value: i32) -> MilliCelsius {
    match MilliCelsius::from_milli_celsius(value) {
        Some(value) => value,
        None => panic!("test temperature must be valid"),
    }
}

fn config() -> ControllerConfig {
    ControllerConfig {
        comfort: ComfortConfig {
            heat_on: mc(20_000),
            heat_off: mc(20_500),
            cool_off: mc(22_500),
            cool_on: mc(23_000),
        },
        timing: TimingConfig {
            cooling_startup_lockout_ms: 300_000,
            cooling_min_off_ms: 300_000,
            cooling_min_run_ms: 180_000,
            heating_startup_lockout_ms: 0,
            heating_min_off_ms: 60_000,
            heating_min_run_ms: 60_000,
            changeover_ms: 300_000,
        },
        equipment: EquipmentProfile::goodman_gmss960804cnaa(),
    }
}

fn arm_with_temp(mut state: ControllerState, now: u64, temp: MilliCelsius) -> ControllerState {
    state = step(
        state,
        Event::SetControlTemperature {
            value: temp,
            valid_for_ms: 3_600_000,
        },
        now,
        config(),
    )
    .state;
    step(state, Event::SetActuatorArmed(true), now, config()).state
}

#[test]
fn boot_is_deenergized() {
    let state = ControllerState::new(0);
    assert_eq!(state.outputs, OutputVector::off());
    assert_eq!(state.phase, Phase::BootSafe);
}

#[test]
fn goodman_heat_call_is_w_without_g_in_fan_auto() {
    let state = arm_with_temp(ControllerState::new(0), 0, mc(19_000));
    let transition = step(state, Event::SetMode(Mode::Heat), 1, config());
    assert_eq!(transition.next_action, EquipmentAction::Heat);
    assert_eq!(
        transition.next_outputs,
        OutputVector {
            w: true,
            y: false,
            g: false
        }
    );
}

#[test]
fn cooling_waits_for_startup_lockout() {
    let state = arm_with_temp(ControllerState::new(0), 0, mc(24_000));
    let transition = step(state, Event::SetMode(Mode::Cool), 1, config());
    assert_eq!(transition.next_action, EquipmentAction::Idle);
    assert_eq!(transition.block_reason, BlockReason::StartupLockout);
    assert_eq!(transition.next_deadline_ms, Some(300_000));

    let transition = step(transition.state, Event::Tick, 300_000, config());
    assert_eq!(transition.next_action, EquipmentAction::Cool);
    assert_eq!(
        transition.next_outputs,
        OutputVector {
            w: false,
            y: true,
            g: true
        }
    );
}

#[test]
fn user_off_stops_cooling_even_inside_minimum_run() {
    let state = arm_with_temp(ControllerState::new(0), 0, mc(24_000));
    let state = step(state, Event::SetMode(Mode::Cool), 300_000, config()).state;
    assert_eq!(state.action, EquipmentAction::Cool);

    let transition = step(state, Event::SetMode(Mode::Off), 300_001, config());
    assert_eq!(transition.next_action, EquipmentAction::Idle);
    assert_eq!(transition.next_outputs, OutputVector::off());
    assert_eq!(transition.state.last_cool_stopped_at_ms, Some(300_001));
}

#[test]
fn setpoint_satisfaction_respects_cooling_minimum_run() {
    let state = arm_with_temp(ControllerState::new(0), 0, mc(24_000));
    let state = step(state, Event::SetMode(Mode::Cool), 300_000, config()).state;

    let transition = step(
        state,
        Event::SetControlTemperature {
            value: mc(22_000),
            valid_for_ms: 1_000_000,
        },
        300_001,
        config(),
    );
    assert_eq!(transition.next_action, EquipmentAction::Cool);
    assert_eq!(transition.block_reason, BlockReason::MinCoolRun);
    assert_eq!(transition.next_deadline_ms, Some(480_000));
}

#[test]
fn restart_reapplies_full_compressor_lockout() {
    let restarted = arm_with_temp(ControllerState::new(1_000_000), 1_000_000, mc(24_000));
    let transition = step(restarted, Event::SetMode(Mode::Cool), 1_000_001, config());
    assert_eq!(transition.block_reason, BlockReason::StartupLockout);
    assert_eq!(transition.next_deadline_ms, Some(1_300_000));
    assert!(!transition.next_outputs.y);
}

#[test]
fn heat_to_cool_passes_through_changeover_wait() {
    let mut cfg = config();
    cfg.timing.heating_min_run_ms = 0;
    let state = arm_with_temp(ControllerState::new(0), 0, mc(19_000));
    let state = step(state, Event::SetMode(Mode::Heat), 1, cfg).state;
    assert_eq!(state.action, EquipmentAction::Heat);

    let state = step(
        state,
        Event::SetControlTemperature {
            value: mc(24_000),
            valid_for_ms: 1_000_000,
        },
        10_000,
        cfg,
    )
    .state;
    let transition = step(state, Event::SetMode(Mode::Cool), 10_001, cfg);
    assert_ne!(transition.next_action, EquipmentAction::Cool);
    assert_eq!(transition.block_reason, BlockReason::ChangeoverDelay);
    assert_eq!(transition.next_outputs, OutputVector::off());
}

#[test]
fn sensor_expiry_ends_active_conditioning() {
    let mut state = ControllerState::new(0);
    state = step(
        state,
        Event::SetControlTemperature {
            value: mc(19_000),
            valid_for_ms: 10_000,
        },
        0,
        config(),
    )
    .state;
    state = step(state, Event::SetActuatorArmed(true), 0, config()).state;
    state = step(state, Event::SetMode(Mode::Heat), 1, config()).state;
    assert_eq!(state.action, EquipmentAction::Heat);

    let transition = step(state, Event::Tick, 10_001, config());
    assert_eq!(transition.next_outputs, OutputVector::off());
    assert_eq!(transition.block_reason, BlockReason::SensorInvalid);
}

#[test]
fn off_plus_fan_on_produces_only_g() {
    let state = ControllerState::new(0);
    let state = step(state, Event::SetActuatorArmed(true), 0, config()).state;
    let transition = step(state, Event::SetFanMode(FanMode::On), 1, config());
    assert_eq!(transition.next_action, EquipmentAction::FanOnly);
    assert_eq!(
        transition.next_outputs,
        OutputVector {
            w: false,
            y: false,
            g: true
        }
    );
}

#[test]
fn backwards_monotonic_time_fails_safe() {
    let state = arm_with_temp(ControllerState::new(100), 100, mc(19_000));
    let state = step(state, Event::SetMode(Mode::Heat), 101, config()).state;
    assert!(state.outputs.w);

    let transition = step(state, Event::Tick, 99, config());
    assert_eq!(transition.next_outputs, OutputVector::off());
    assert_eq!(transition.block_reason, BlockReason::NonMonotonicTime);
    assert_eq!(
        transition.state.critical_fault,
        Some(CriticalFault::NonMonotonicTime)
    );
}
