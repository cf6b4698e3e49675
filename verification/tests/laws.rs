use thermostat::{
    BlockReason, ComfortConfig, ControllerConfig, ControllerState, Demand, EquipmentAction,
    EquipmentProfile, Event, MilliCelsius, Mode, OutputVector, Phase, TimingConfig, step,
    validate_state,
};

fn mc(value: i32) -> MilliCelsius {
    match MilliCelsius::from_milli_celsius(value) {
        Some(value) => value,
        None => panic!("test temperature must be valid"),
    }
}

fn config() -> ControllerConfig {
    ControllerConfig {
        comfort: ComfortConfig {
            heat_on: mc(20_000),
            heat_off: mc(20_500),
            cool_off: mc(22_500),
            cool_on: mc(23_000),
        },
        timing: TimingConfig {
            cooling_startup_lockout_ms: 300_000,
            cooling_min_off_ms: 300_000,
            cooling_min_run_ms: 180_000,
            heating_startup_lockout_ms: 0,
            heating_min_off_ms: 60_000,
            heating_min_run_ms: 60_000,
            changeover_ms: 300_000,
        },
        equipment: EquipmentProfile::goodman_gmss960804cnaa(),
    }
}

fn armed(now: u64, temperature: MilliCelsius, cfg: ControllerConfig) -> ControllerState {
    let state = ControllerState::new(now);
    let state = step(
        state,
        Event::SetControlTemperature { value: temperature, valid_for_ms: 3_600_000 },
        now,
        cfg,
    )
    .state;
    step(state, Event::SetActuatorArmed(true), now, cfg).state
}

fn set_temperature(value: MilliCelsius) -> Event {
    Event::SetControlTemperature { value, valid_for_ms: 3_600_000 }
}

#[test]
fn heating_minimum_run_holds_a_satisfied_cycle() {
    let cfg = config();
    let heating = step(armed(0, mc(19_000), cfg), Event::SetMode(Mode::Heat), 1, cfg).state;
    let held = step(heating, set_temperature(mc(21_000)), 30_000, cfg);
    assert_eq!(held.next_action, EquipmentAction::Heat);
    assert_eq!(held.block_reason, BlockReason::MinHeatRun);
    assert_eq!(held.next_deadline_ms, Some(60_001));
    assert_eq!(held.state.demand, Demand::Satisfied);

    let released = step(held.state, Event::Tick, 60_001, cfg);
    assert_eq!(released.next_action, EquipmentAction::Idle);
    assert_eq!(released.state.last_heat_stopped_at_ms, Some(60_001));
}

#[test]
fn opposite_demand_outranks_minimum_run() {
    let cfg = config();
    let heating = step(armed(0, mc(19_000), cfg), Event::SetMode(Mode::Auto), 1, cfg).state;
    assert_eq!(heating.action, EquipmentAction::Heat);
    let reversed = step(heating, set_temperature(mc(24_000)), 2, cfg);
    assert_eq!(reversed.next_action, EquipmentAction::Idle);
    assert_eq!(reversed.next_outputs, OutputVector::off());
    assert_eq!(reversed.state.demand, Demand::Cool);
    assert_eq!(reversed.block_reason, BlockReason::ChangeoverDelay);
    assert_eq!(reversed.next_deadline_ms, Some(300_002));
}

#[test]
fn heating_minimum_off_boundary_is_exact() {
    let cfg = config();
    let heating = step(armed(0, mc(19_000), cfg), Event::SetMode(Mode::Heat), 1, cfg).state;
    let off = step(heating, Event::SetMode(Mode::Off), 100_000, cfg).state;
    assert_eq!(off.last_heat_stopped_at_ms, Some(100_000));
    let waiting = step(off, Event::SetMode(Mode::Heat), 100_001, cfg);
    assert_eq!(waiting.next_action, EquipmentAction::Idle);
    assert_eq!(waiting.block_reason, BlockReason::MinHeatOff);
    assert_eq!(waiting.next_deadline_ms, Some(160_000));
    let still = step(waiting.state, Event::Tick, 159_999, cfg);
    assert_eq!(still.next_action, EquipmentAction::Idle);
    let started = step(still.state, Event::Tick, 160_000, cfg);
    assert_eq!(started.next_action, EquipmentAction::Heat);
}

#[test]
fn user_off_stops_heating_inside_minimum_run() {
    let cfg = config();
    let heating = step(armed(0, mc(19_000), cfg), Event::SetMode(Mode::Heat), 1, cfg).state;
    let off = step(heating, Event::SetMode(Mode::Off), 2, cfg);
    assert!(!off.next_outputs.w && !off.next_outputs.y);
    assert_eq!(off.state.last_heat_stopped_at_ms, Some(2));
    assert_eq!(off.state.phase, Phase::Idle);
}

#[test]
fn reversal_at_the_last_millisecond_saturates_its_deadline() {
    let mut cfg = config();
    cfg.timing = TimingConfig {
        cooling_startup_lockout_ms: 0,
        cooling_min_off_ms: 0,
        cooling_min_run_ms: 0,
        heating_startup_lockout_ms: 0,
        heating_min_off_ms: 0,
        heating_min_run_ms: 0,
        changeover_ms: 0,
    };
    let now = u64::MAX - 1;
    let heating = step(armed(now, mc(19_000), cfg), Event::SetMode(Mode::Auto), now, cfg).state;
    assert_eq!(heating.action, EquipmentAction::Heat);
    let reversed = step(heating, set_temperature(mc(24_000)), u64::MAX, cfg);
    assert_eq!(reversed.next_outputs, OutputVector::off());
    assert_eq!(reversed.next_deadline_ms, Some(u64::MAX));
}

#[test]
fn every_mode_from_a_neutral_temperature_keeps_the_state_safe() {
    let cfg = config();
    let state = armed(0, mc(21_500), cfg);
    for mode in [Mode::Off, Mode::Heat, Mode::Cool, Mode::Auto] {
        let t = step(state, Event::SetMode(mode), 1, cfg);
        assert_eq!(t.state.critical_fault, None);
        assert_eq!(validate_state(&t.state), Ok(()));
    }
}
