use vstd::prelude::*;

use crate::actuator::{ActuatorError, ActuatorTransition, VirtualActuator};
use crate::clock::ClockError;
use crate::config::ControllerConfig;
use crate::controller::{TransitionRecord, step};
use crate::invariants::{state_is_safe, validate_state};
use crate::laws::law_step_is_safe;
use crate::model::{Event, step_of};
use crate::state::{ControllerState, boot_state};
use crate::temperature::MilliCelsius;
use crate::types::{FanMode, Mode, OutputVector};

verus! {

#[derive(Clone, Copy, Debug, PartialEq, Eq, Structural)]
pub enum ThermalModelError {
    NonFinite,
    InvalidTimeConstant,
    InvalidHeatingRate,
    InvalidCoolingRate,
}

#[derive(Clone, Copy, Debug, PartialEq, Eq, Structural)]
pub enum ScenarioError {
    Clock(ClockError),
    Thermal(ThermalModelError),
    TemperatureConversion,
    Actuator(ActuatorError),
    ControllerInvariant,
}

/// The record of applying `event` at `now_ms` to a controller state.
pub open spec fn scenario_record(s: ControllerState, event: Event, now_ms: u64, c: ControllerConfig) -> TransitionRecord {
    let t = step_of(s, event, now_ms, c);
    TransitionRecord {
        at_ms: now_ms,
        event,
        previous_action: t.previous_action,
        next_action: t.next_action,
        previous_outputs: t.previous_outputs,
        next_outputs: t.next_outputs,
        next_phase: t.state.phase,
        next_demand: t.state.demand,
        block_reason: t.block_reason,
        next_deadline_ms: t.next_deadline_ms,
    }
}

/// Drives a virtual plant by one controller event: the controller steps, the
/// resulting state is checked against the hard invariants, the actuator
/// applies the new outputs as one transaction, and the controller state is
/// committed. Nothing is committed when the actuator refuses the outputs,
/// which happens exactly when `now_ms` is older than its latest application.
pub fn apply_scenario_event(
    state: &mut ControllerState,
    actuator: &mut VirtualActuator,
    event: Event,
    now_ms: u64,
    config: ControllerConfig,
) -> (r: Result<TransitionRecord, ScenarioError>)
    ensures
        ({
            let t = step_of(*old(state), event, now_ms, config);
            if old(actuator).last_applied() matches Some(p) && now_ms < p {
                &&& r == Err::<TransitionRecord, ScenarioError>(
                    ScenarioError::Actuator(ActuatorError::NonMonotonicApplication),
                )
                &&& *final(state) == *old(state)
                &&& *final(actuator) == *old(actuator)
            } else {
                &&& r == Ok::<TransitionRecord, ScenarioError>(scenario_record(*old(state), event, now_ms, config))
                &&& *final(state) == t.state
                &&& state_is_safe(*final(state))
                &&& final(actuator).applied() == t.next_outputs
                &&& final(actuator).last_applied() == Some(now_ms)
                &&& final(actuator).application_count() == old(actuator).application_count().saturating_add(1)
                &&& final(actuator).history() == if t.next_outputs != old(actuator).applied() {
                    old(actuator).history().push(
                        ActuatorTransition { at_ms: now_ms, previous: old(actuator).applied(), next: t.next_outputs },
                    )
                } else {
                    old(actuator).history()
                }
            }
        }),
        old(actuator).history_is_consistent() ==> final(actuator).history_is_consistent(),
{
    let transition = step(*state, event, now_ms, config);
    proof {
        law_step_is_safe(*old(state), event, now_ms, config);
    }
    if validate_state(&transition.state).is_err() {
        return Err(ScenarioError::ControllerInvariant);
    }
    match actuator.apply(now_ms, transition.next_outputs) {
        Err(e) => return Err(ScenarioError::Actuator(e)),
        Ok(()) => {},
    }
    let record = transition.record(event, now_ms);
    *state = transition.state;
    Ok(record)
}

/// The four events with which a scenario arms the controller: a temperature
/// observation, arming, the fan mode, then the HVAC mode.
pub open spec fn arming_events(temperature: MilliCelsius, sensor_ttl_ms: u64, mode: Mode, fan_mode: FanMode) -> Seq<Event> {
    seq![
        Event::SetControlTemperature { value: temperature, valid_for_ms: sensor_ttl_ms },
        Event::SetActuatorArmed(true),
        Event::SetFanMode(fan_mode),
        Event::SetMode(mode),
    ]
}

/// The controller state after the events, all at `now_ms`.
pub open spec fn state_after_events(s: ControllerState, events: Seq<Event>, now_ms: u64, c: ControllerConfig) -> ControllerState
    decreases events.len(),
{
    if events.len() == 0 {
        s
    } else {
        step_of(state_after_events(s, events.drop_last(), now_ms, c), events.last(), now_ms, c).state
    }
}

/// Arms a scenario's controller: feeds the converted local temperature,
/// arms the actuator, then applies the fan and HVAC modes, each as one
/// scenario event at `now_ms`. Only the first event can be refused (when
/// `now_ms` is older than the actuator's latest application), and then
/// nothing changes.
#[verifier::rlimit(60)]
pub fn arm_controller(
    state: &mut ControllerState,
    actuator: &mut VirtualActuator,
    temperature: MilliCelsius,
    sensor_ttl_ms: u64,
    mode: Mode,
    fan_mode: FanMode,
    now_ms: u64,
    config: ControllerConfig,
) -> (r: Result<(), ScenarioError>)
    ensures
        ({
            let events = arming_events(temperature, sensor_ttl_ms, mode, fan_mode);
            if old(actuator).last_applied() matches Some(p) && now_ms < p {
                &&& r == Err::<(), ScenarioError>(
                    ScenarioError::Actuator(ActuatorError::NonMonotonicApplication),
                )
                &&& *final(state) == *old(state)
                &&& *final(actuator) == *old(actuator)
            } else {
                let s3 = state_after_events(*old(state), events.take(3), now_ms, config);
                &&& r is Ok
                &&& *final(state) == state_after_events(*old(state), events, now_ms, config)
                &&& state_is_safe(*final(state))
                &&& final(actuator).applied() == step_of(s3, events[3], now_ms, config).next_outputs
                &&& final(actuator).last_applied() == Some(now_ms)
            }
        }),
        old(actuator).history_is_consistent() ==> final(actuator).history_is_consistent(),
{
    let ghost events = arming_events(temperature, sensor_ttl_ms, mode, fan_mode);
    let ghost s0 = *state;
    proof {
        assert(events.take(1).drop_last() =~= events.take(0));
        assert(events.take(2).drop_last() =~= events.take(1));
        assert(events.take(3).drop_last() =~= events.take(2));
        assert(events.drop_last() =~= events.take(3));
        assert(events.take(0) =~= Seq::<Event>::empty());
        assert(state_after_events(s0, events.take(0), now_ms, config) == s0);
        assert(events.take(1).last() == events[0]);
        assert(events.take(2).last() == events[1]);
        assert(events.take(3).last() == events[2]);
        assert(events.last() == events[3]);
    }
    match apply_scenario_event(
        state,
        actuator,
        Event::SetControlTemperature { value: temperature, valid_for_ms: sensor_ttl_ms },
        now_ms,
        config,
    ) {
        Err(e) => return Err(e),
        Ok(_) => {},
    }
    assert(*state == state_after_events(s0, events.take(1), now_ms, config));
    match apply_scenario_event(state, actuator, Event::SetActuatorArmed(true), now_ms, config) {
        Err(e) => return Err(e),
        Ok(_) => {},
    }
    assert(*state == state_after_events(s0, events.take(2), now_ms, config));
    match apply_scenario_event(state, actuator, Event::SetFanMode(fan_mode), now_ms, config) {
        Err(e) => return Err(e),
        Ok(_) => {},
    }
    assert(*state == state_after_events(s0, events.take(3), now_ms, config));
    match apply_scenario_event(state, actuator, Event::SetMode(mode), now_ms, config) {
        Err(e) => return Err(e),
        Ok(_) => {},
    }
    Ok(())
}

/// Restarts a scenario's controller at `now_ms`: the actuator is first driven
/// OFF, then the controller boots afresh at `now_ms` (so every startup lockout
/// applies again). When the actuator refuses (because `now_ms` is older than
/// its latest application) nothing changes.
pub fn restart_controller(
    state: &mut ControllerState,
    actuator: &mut VirtualActuator,
    now_ms: u64,
) -> (r: Result<(), ScenarioError>)
    ensures
        if old(actuator).last_applied() matches Some(p) && now_ms < p {
            &&& r == Err::<(), ScenarioError>(
                ScenarioError::Actuator(ActuatorError::NonMonotonicApplication),
            )
            &&& *final(state) == *old(state)
            &&& *final(actuator) == *old(actuator)
        } else {
            &&& r is Ok
            &&& *final(state) == boot_state(now_ms)
            &&& final(actuator).applied() == OutputVector::spec_off()
            &&& final(actuator).last_applied() == Some(now_ms)
            &&& final(actuator).application_count() == old(actuator).application_count().saturating_add(1)
        },
        old(actuator).history_is_consistent() ==> final(actuator).history_is_consistent(),
{
    match actuator.apply(now_ms, OutputVector::off()) {
        Err(e) => return Err(ScenarioError::Actuator(e)),
        Ok(()) => {},
    }
    *state = ControllerState::new(now_ms);
    Ok(())
}

} // verus!
