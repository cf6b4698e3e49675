use vstd::prelude::*;

use crate::config::ControllerConfig;
use crate::invariants::{state_is_safe, validate_output_vector};
use crate::laws::law_step_is_safe;
use crate::model::{
    Event, Transition, accumulated, action_set, active_cycle_policy, armed_evaluation,
    changeover_deadline, conditioning_decision, deadline_since, demand_for, earliest,
    event_applied, fan_idle_action, fan_overridden, finalized, finished, forced_safe,
    idle_choice, mode_allows, opposite_demand, pending, phase_for, reversal_break,
    running_family_policy, safe_transition_of, sensor_deadline, step_of, stopped,
};
use crate::state::{ControlTemperature, ControllerState, CriticalFault, Phase};
use crate::temperature::MilliCelsius;
use crate::types::{
    BlockReason, Demand, EquipmentAction, EquipmentFamily, FanMode, Mode, OutputVector,
};

verus! {

/// Compact semantic record suitable for persistence/replay without exposing a
/// raw relay-write API.
#[derive(Clone, Copy, Debug, PartialEq, Eq)]
pub struct TransitionRecord {
    pub at_ms: u64,
    pub event: Event,
    pub previous_action: EquipmentAction,
    pub next_action: EquipmentAction,
    pub previous_outputs: OutputVector,
    pub next_outputs: OutputVector,
    pub next_phase: Phase,
    pub next_demand: Demand,
    pub block_reason: BlockReason,
    pub next_deadline_ms: Option<u64>,
}

impl Transition {
    /// Converts a completed transition into the semantic event record that a
    /// persistence layer can append.
    pub fn record(&self, event: Event, at_ms: u64) -> (r: TransitionRecord)
        ensures
            r == (TransitionRecord {
                at_ms,
                event,
                previous_action: self.previous_action,
                next_action: self.next_action,
                previous_outputs: self.previous_outputs,
                next_outputs: self.next_outputs,
                next_phase: self.state.phase,
                next_demand: self.state.demand,
                block_reason: self.block_reason,
                next_deadline_ms: self.next_deadline_ms,
            }),
    {
        TransitionRecord {
            at_ms,
            event,
            previous_action: self.previous_action,
            next_action: self.next_action,
            previous_outputs: self.previous_outputs,
            next_outputs: self.next_outputs,
            next_phase: self.state.phase,
            next_demand: self.state.demand,
            block_reason: self.block_reason,
            next_deadline_ms: self.next_deadline_ms,
        }
    }

    /// Whether any contact differs between the previous and next vectors.
    pub fn changed_outputs(&self) -> (r: bool)
        ensures
            r == (self.previous_outputs != self.next_outputs),
    {
        self.previous_outputs.w != self.next_outputs.w
            || self.previous_outputs.y != self.next_outputs.y
            || self.previous_outputs.g != self.next_outputs.g
    }
}

/// Advances the controller by one event at monotonic time `now_ms`; the
/// resulting state always satisfies every hard invariant.
pub fn step(state: ControllerState, event: Event, now_ms: u64, config: ControllerConfig) -> (t: Transition)
    ensures
        t == step_of(state, event, now_ms, config),
        state_is_safe(t.state),
{
    proof {
        law_step_is_safe(state, event, now_ms, config);
    }
    let mut state = state;
    let previous_action = state.action;
    let previous_outputs = state.outputs;

    if now_ms < state.last_evaluated_at_ms {
        let safe_stop_ms = state.last_evaluated_at_ms;
        state.critical_fault = Some(CriticalFault::NonMonotonicTime);
        force_safe(&mut state, BlockReason::NonMonotonicTime, safe_stop_ms);
        return finish(state, previous_action, previous_outputs, None, now_ms);
    }

    state.last_evaluated_at_ms = now_ms;
    apply_event(&mut state, event, now_ms);

    if config.validate().is_err() {
        return safe_transition(state, BlockReason::ConfigInvalid, None, previous_action, previous_outputs, now_ms);
    }
    if state.critical_fault.is_some() {
        return safe_transition(state, BlockReason::CriticalFault, None, previous_action, previous_outputs, now_ms);
    }
    if !state.actuator_armed {
        return safe_transition(
            state,
            BlockReason::ActuatorNotArmed,
            Some(Phase::BootSafe),
            previous_action,
            previous_outputs,
            now_ms,
        );
    }
    evaluate_armed_state(state, previous_action, previous_outputs, now_ms, config)
}

fn evaluate_armed_state(
    state: ControllerState,
    previous_action: EquipmentAction,
    previous_outputs: OutputVector,
    now_ms: u64,
    config: ControllerConfig,
) -> (t: Transition)
    ensures
        t == armed_evaluation(state, previous_action, previous_outputs, now_ms, config),
{
    let mut state = state;
    // Mode OFF is usable without a temperature sensor; fan ON stays
    // independent, matching conventional thermostat behavior.
    if state.mode == Mode::Off {
        stop_active_conditioning(&mut state, now_ms);
        state.demand = Demand::Satisfied;
        let action = fan_idle(state.fan_mode);
        set_action(&mut state, action, now_ms);
        return finalize_outputs(state, previous_action, previous_outputs, None, now_ms, config);
    }

    let control_temperature = match state.control_temperature {
        Some(ct) => ct,
        None => {
            stop_active_conditioning(&mut state, now_ms);
            return safe_transition(state, BlockReason::SensorInvalid, None, previous_action, previous_outputs, now_ms);
        },
    };
    if now_ms > control_temperature.valid_until_ms {
        stop_active_conditioning(&mut state, now_ms);
        return safe_transition(state, BlockReason::SensorInvalid, None, previous_action, previous_outputs, now_ms);
    }
    decide_conditioning(state, control_temperature.value, previous_action, previous_outputs, now_ms, config)
}

/// The armed decision once the control temperature is known to be valid.
fn decide_conditioning(
    state: ControllerState,
    temperature: MilliCelsius,
    previous_action: EquipmentAction,
    previous_outputs: OutputVector,
    now_ms: u64,
    config: ControllerConfig,
) -> (t: Transition)
    ensures
        t == conditioning_decision(state, temperature, previous_action, previous_outputs, now_ms, config),
{
    proof {
        reveal(conditioning_decision);
    }
    let mut state = state;
    let demand = calculate_demand(&state, temperature, config);
    state.demand = demand;

    let sensor_deadline = sensor_expiry_deadline(&state);
    let cycle_deadline = apply_active_cycle_policy(&mut state, demand, now_ms, config);
    let mut deadline = min_deadline(cycle_deadline, sensor_deadline);

    match family_reversal_break(&mut state, previous_action, demand, now_ms, config) {
        Some((block_reason, family_deadline)) => {
            state.block_reason = block_reason;
            deadline = min_deadline(deadline, Some(family_deadline));
            return finalize_outputs(state, previous_action, previous_outputs, deadline, now_ms, config);
        },
        None => {},
    }

    // A cycle left running by the active-cycle policy may not be replaced on
    // this evaluation, whether demand stays in-family or a minimum-run gate
    // holds it.
    if state.action == EquipmentAction::Heat || state.action == EquipmentAction::Cool {
        return finalize_outputs(state, previous_action, previous_outputs, deadline, now_ms, config);
    }

    let (next_action, block_reason, start_deadline) = choose_idle_action(&state, demand, now_ms, config);
    state.block_reason = block_reason;
    deadline = min_deadline(deadline, start_deadline);
    set_action(&mut state, next_action, now_ms);
    finalize_outputs(state, previous_action, previous_outputs, deadline, now_ms, config)
}

fn apply_active_cycle_policy(
    state: &mut ControllerState,
    demand: Demand,
    now_ms: u64,
    config: ControllerConfig,
) -> (d: Option<u64>)
    ensures
        (*final(state), d) == active_cycle_policy(*old(state), demand, now_ms, config),
{
    // An explicit mode change that no longer permits the running family stops
    // it immediately; minimum run time is no authority to ignore it.
    if !mode_allows_action(state.mode, state.action) {
        stop_active_conditioning(state, now_ms);
        return None;
    }
    match state.action {
        EquipmentAction::Heat => apply_running_family_policy(
            state,
            demand,
            Demand::Heat,
            Demand::Cool,
            config.timing.heating_min_run_ms,
            BlockReason::MinHeatRun,
            now_ms,
        ),
        EquipmentAction::Cool => apply_running_family_policy(
            state,
            demand,
            Demand::Cool,
            Demand::Heat,
            config.timing.cooling_min_run_ms,
            BlockReason::MinCoolRun,
            now_ms,
        ),
        _ => None,
    }
}

fn apply_running_family_policy(
    state: &mut ControllerState,
    demand: Demand,
    same_family: Demand,
    opposite_family: Demand,
    minimum_run_ms: u64,
    minimum_run_reason: BlockReason,
    now_ms: u64,
) -> (d: Option<u64>)
    ensures
        (*final(state), d) == running_family_policy(
            *old(state),
            demand,
            same_family,
            opposite_family,
            minimum_run_ms,
            minimum_run_reason,
            now_ms,
        ),
{
    if demand == same_family {
        return None;
    }
    // An actual opposite-family demand is stronger than the minimum-run
    // preference: stop first, changeover gates control the restart.
    if demand == opposite_family {
        stop_active_conditioning(state, now_ms);
        return None;
    }
    match minimum_run_deadline(state.current_action_started_at_ms, minimum_run_ms, now_ms) {
        Some(deadline) => {
            state.block_reason = minimum_run_reason;
            Some(deadline)
        },
        None => {
            stop_active_conditioning(state, now_ms);
            None
        },
    }
}

fn safe_transition(
    state: ControllerState,
    reason: BlockReason,
    phase_override: Option<Phase>,
    previous_action: EquipmentAction,
    previous_outputs: OutputVector,
    now_ms: u64,
) -> (t: Transition)
    ensures
        t == safe_transition_of(state, reason, phase_override, previous_action, previous_outputs, now_ms),
{
    let mut state = state;
    force_safe(&mut state, reason, now_ms);
    match phase_override {
        Some(phase) => {
            state.phase = phase;
        },
        None => {},
    }
    finish(state, previous_action, previous_outputs, None, now_ms)
}

fn apply_event(state: &mut ControllerState, event: Event, now_ms: u64)
    ensures
        *final(state) == event_applied(*old(state), event, now_ms),
{
    match event {
        Event::Tick => {},
        Event::SetMode(mode) => state.mode = mode,
        Event::SetFanMode(mode) => state.fan_mode = mode,
        Event::SetControlTemperature { value, valid_for_ms } => {
            state.control_temperature = Some(
                ControlTemperature { value, valid_until_ms: now_ms.saturating_add(valid_for_ms) },
            );
        },
        Event::ClearControlTemperature => state.control_temperature = None,
        Event::SetActuatorArmed(armed) => state.actuator_armed = armed,
        Event::RaiseCriticalFault => state.critical_fault = Some(CriticalFault::External),
        Event::ClearCriticalFault => state.critical_fault = None,
    }
}

fn calculate_demand(state: &ControllerState, temperature: MilliCelsius, config: ControllerConfig) -> (d: Demand)
    ensures
        d == demand_for(*state, temperature, config),
{
    let t = temperature.as_milli_celsius();
    let heat_on = config.comfort.heat_on.as_milli_celsius();
    let heat_off = config.comfort.heat_off.as_milli_celsius();
    let cool_off = config.comfort.cool_off.as_milli_celsius();
    let cool_on = config.comfort.cool_on.as_milli_celsius();
    match state.mode {
        Mode::Off => Demand::Satisfied,
        Mode::Heat => {
            if state.action == EquipmentAction::Heat {
                if t >= heat_off { Demand::Satisfied } else { Demand::Heat }
            } else if t <= heat_on {
                Demand::Heat
            } else {
                Demand::Satisfied
            }
        },
        Mode::Cool => {
            if state.action == EquipmentAction::Cool {
                if t <= cool_off { Demand::Satisfied } else { Demand::Cool }
            } else if t >= cool_on {
                Demand::Cool
            } else {
                Demand::Satisfied
            }
        },
        Mode::Auto => match state.action {
            EquipmentAction::Heat => {
                if t >= cool_on {
                    Demand::Cool
                } else if t >= heat_off {
                    Demand::Satisfied
                } else {
                    Demand::Heat
                }
            },
            EquipmentAction::Cool => {
                if t <= heat_on {
                    Demand::Heat
                } else if t <= cool_off {
                    Demand::Satisfied
                } else {
                    Demand::Cool
                }
            },
            _ => {
                if t <= heat_on {
                    Demand::Heat
                } else if t >= cool_on {
                    Demand::Cool
                } else {
                    Demand::Satisfied
                }
            },
        },
    }
}

fn choose_idle_action(
    state: &ControllerState,
    demand: Demand,
    now_ms: u64,
    config: ControllerConfig,
) -> (r: (EquipmentAction, BlockReason, Option<u64>))
    ensures
        r == idle_choice(*state, demand, now_ms, config),
{
    match demand {
        Demand::Satisfied => (fan_idle(state.fan_mode), BlockReason::Unblocked, None),
        Demand::Heat => {
            let mut deadline: Option<u64> = None;
            let mut reason = BlockReason::Unblocked;
            match startup_deadline(state.booted_at_ms, config.timing.heating_startup_lockout_ms, now_ms) {
                Some(until) => accumulate_block(&mut deadline, &mut reason, until, BlockReason::StartupLockout),
                None => {},
            }
            match stopped_deadline(state.last_heat_stopped_at_ms, config.timing.heating_min_off_ms, now_ms) {
                Some(until) => accumulate_block(&mut deadline, &mut reason, until, BlockReason::MinHeatOff),
                None => {},
            }
            match opposite_changeover_deadline(state, EquipmentFamily::Heat, config.timing.changeover_ms, now_ms) {
                Some(until) => accumulate_block(&mut deadline, &mut reason, until, BlockReason::ChangeoverDelay),
                None => {},
            }
            if deadline.is_some() {
                (fan_idle(state.fan_mode), reason, deadline)
            } else {
                (EquipmentAction::Heat, BlockReason::Unblocked, None)
            }
        },
        Demand::Cool => {
            let mut deadline: Option<u64> = None;
            let mut reason = BlockReason::Unblocked;
            match startup_deadline(state.booted_at_ms, config.timing.cooling_startup_lockout_ms, now_ms) {
                Some(until) => accumulate_block(&mut deadline, &mut reason, until, BlockReason::StartupLockout),
                None => {},
            }
            match stopped_deadline(state.last_cool_stopped_at_ms, config.timing.cooling_min_off_ms, now_ms) {
                Some(until) => accumulate_block(&mut deadline, &mut reason, until, BlockReason::MinCoolOff),
                None => {},
            }
            match opposite_changeover_deadline(state, EquipmentFamily::Cool, config.timing.changeover_ms, now_ms) {
                Some(until) => accumulate_block(&mut deadline, &mut reason, until, BlockReason::ChangeoverDelay),
                None => {},
            }
            if deadline.is_some() {
                (fan_idle(state.fan_mode), reason, deadline)
            } else {
                (EquipmentAction::Cool, BlockReason::Unblocked, None)
            }
        },
    }
}

fn mode_allows_action(mode: Mode, action: EquipmentAction) -> (r: bool)
    ensures
        r == mode_allows(mode, action),
{
    match action {
        EquipmentAction::Heat => mode == Mode::Heat || mode == Mode::Auto,
        EquipmentAction::Cool => mode == Mode::Cool || mode == Mode::Auto,
        _ => true,
    }
}

fn demand_is_opposite(action: EquipmentAction, demand: Demand) -> (r: bool)
    ensures
        r == opposite_demand(action, demand),
{
    match (action, demand) {
        (EquipmentAction::Heat, Demand::Cool) => true,
        (EquipmentAction::Cool, Demand::Heat) => true,
        _ => false,
    }
}

fn family_reversal_break(
    state: &mut ControllerState,
    previous_action: EquipmentAction,
    demand: Demand,
    now_ms: u64,
    config: ControllerConfig,
) -> (r: Option<(BlockReason, u64)>)
    ensures
        (*final(state), r) == reversal_break(*old(state), previous_action, demand, now_ms, config),
{
    if !demand_is_opposite(previous_action, demand) {
        return None;
    }
    // The active-cycle policy normally stops the family first; stopping here
    // as well keeps the break defensive against reordering.
    if state.action == EquipmentAction::Heat || state.action == EquipmentAction::Cool {
        stop_active_conditioning(state, now_ms);
    }
    // Family reversals are always break-before-make: even a zero changeover
    // yields an idle/fan-only commit and a re-evaluation one millisecond later.
    let (_, block_reason, start_deadline) = choose_idle_action(state, demand, now_ms, config);
    Some(
        match start_deadline {
            Some(deadline) => (block_reason, deadline),
            None => (BlockReason::ChangeoverDelay, now_ms.saturating_add(1)),
        },
    )
}

fn fan_idle(fan_mode: FanMode) -> (a: EquipmentAction)
    ensures
        a == fan_idle_action(fan_mode),
{
    match fan_mode {
        FanMode::Auto => EquipmentAction::Idle,
        FanMode::On => EquipmentAction::FanOnly,
    }
}

fn set_action(state: &mut ControllerState, action: EquipmentAction, now_ms: u64)
    ensures
        *final(state) == action_set(*old(state), action, now_ms),
{
    if state.action == action {
        state.phase = phase_of(action);
        return;
    }
    if state.action == EquipmentAction::Heat || state.action == EquipmentAction::Cool {
        stop_active_conditioning(state, now_ms);
    }
    state.action = action;
    state.phase = phase_of(action);
    state.current_action_started_at_ms = match action {
        EquipmentAction::Heat | EquipmentAction::Cool => Some(now_ms),
        _ => None,
    };
}

fn stop_active_conditioning(state: &mut ControllerState, now_ms: u64)
    ensures
        *final(state) == stopped(*old(state), now_ms),
{
    match state.action {
        EquipmentAction::Heat => {
            state.last_heat_stopped_at_ms = Some(now_ms);
            state.last_family_stopped = Some((EquipmentFamily::Heat, now_ms));
        },
        EquipmentAction::Cool => {
            state.last_cool_stopped_at_ms = Some(now_ms);
            state.last_family_stopped = Some((EquipmentFamily::Cool, now_ms));
        },
        _ => return ,
    }
    state.action = fan_idle(state.fan_mode);
    state.phase = phase_of(state.action);
    state.current_action_started_at_ms = None;
    state.block_reason = BlockReason::Unblocked;
}

fn phase_of(action: EquipmentAction) -> (p: Phase)
    ensures
        p == phase_for(action),
{
    match action {
        EquipmentAction::Idle => Phase::Idle,
        EquipmentAction::Heat => Phase::Heating,
        EquipmentAction::Cool => Phase::Cooling,
        EquipmentAction::FanOnly => Phase::FanOnly,
    }
}

fn force_safe(state: &mut ControllerState, reason: BlockReason, safe_stop_ms: u64)
    ensures
        *final(state) == forced_safe(*old(state), reason, safe_stop_ms),
{
    stop_active_conditioning(state, safe_stop_ms);
    state.phase = Phase::FaultSafe;
    state.demand = Demand::Satisfied;
    state.action = EquipmentAction::Idle;
    state.outputs = OutputVector::off();
    state.block_reason = reason;
    state.current_action_started_at_ms = None;
}

fn minimum_run_deadline(started_at: Option<u64>, minimum_ms: u64, now_ms: u64) -> (d: Option<u64>)
    ensures
        d == deadline_since(started_at, minimum_ms, now_ms),
{
    match started_at {
        Some(start) => {
            let deadline = start.saturating_add(minimum_ms);
            if now_ms < deadline { Some(deadline) } else { None }
        },
        None => None,
    }
}

fn startup_deadline(booted_at: u64, duration_ms: u64, now_ms: u64) -> (d: Option<u64>)
    ensures
        d == pending(booted_at.saturating_add(duration_ms), now_ms),
{
    let deadline = booted_at.saturating_add(duration_ms);
    if now_ms < deadline { Some(deadline) } else { None }
}

fn stopped_deadline(stopped_at: Option<u64>, minimum_ms: u64, now_ms: u64) -> (d: Option<u64>)
    ensures
        d == deadline_since(stopped_at, minimum_ms, now_ms),
{
    match stopped_at {
        Some(at) => {
            let deadline = at.saturating_add(minimum_ms);
            if now_ms < deadline { Some(deadline) } else { None }
        },
        None => None,
    }
}

fn sensor_expiry_deadline(state: &ControllerState) -> (d: Option<u64>)
    ensures
        d == sensor_deadline(*state),
{
    // A sample is valid through `valid_until_ms` inclusively, so the first
    // instant at which validity can change is +1 ms; a saturated validity has
    // no representable expiry and schedules nothing.
    match state.control_temperature {
        Some(ct) => ct.valid_until_ms.checked_add(1),
        None => None,
    }
}

fn opposite_changeover_deadline(
    state: &ControllerState,
    requested: EquipmentFamily,
    changeover_ms: u64,
    now_ms: u64,
) -> (d: Option<u64>)
    ensures
        d == changeover_deadline(*state, requested, changeover_ms, now_ms),
{
    match state.last_family_stopped {
        Some((last_family, stopped_at)) => {
            if last_family == requested {
                return None;
            }
            let deadline = stopped_at.saturating_add(changeover_ms);
            if now_ms < deadline { Some(deadline) } else { None }
        },
        None => None,
    }
}

fn apply_fan_override(
    action: EquipmentAction,
    fan_mode: FanMode,
    outputs: OutputVector,
    config: ControllerConfig,
) -> (r: OutputVector)
    ensures
        r == fan_overridden(action, fan_mode, outputs, config),
{
    let mut outputs = outputs;
    if fan_mode != FanMode::On {
        return outputs;
    }
    match action {
        EquipmentAction::Heat => {
            if config.equipment.allow_continuous_fan_with_heat {
                outputs.g = true;
            }
        },
        _ => {
            outputs.g = true;
        },
    }
    outputs
}

fn finalize_outputs(
    state: ControllerState,
    previous_action: EquipmentAction,
    previous_outputs: OutputVector,
    next_deadline_ms: Option<u64>,
    now_ms: u64,
    config: ControllerConfig,
) -> (t: Transition)
    ensures
        t == finalized(state, previous_action, previous_outputs, next_deadline_ms, now_ms, config),
{
    let mut state = state;
    let base = config.equipment.outputs_for(state.action);
    let outputs = apply_fan_override(state.action, state.fan_mode, base, config);
    if validate_output_vector(outputs).is_err() {
        state.critical_fault = Some(CriticalFault::OutputInvariantViolation);
        force_safe(&mut state, BlockReason::CriticalFault, now_ms);
        return finish(state, previous_action, previous_outputs, None, now_ms);
    }
    state.outputs = outputs;
    finish(state, previous_action, previous_outputs, next_deadline_ms, now_ms)
}

fn finish(
    state: ControllerState,
    previous_action: EquipmentAction,
    previous_outputs: OutputVector,
    next_deadline_ms: Option<u64>,
    _now_ms: u64,
) -> (t: Transition)
    ensures
        t == finished(state, previous_action, previous_outputs, next_deadline_ms),
{
    Transition {
        previous_action,
        next_action: state.action,
        previous_outputs,
        next_outputs: state.outputs,
        block_reason: state.block_reason,
        next_deadline_ms,
        state,
    }
}

fn min_deadline(a: Option<u64>, b: Option<u64>) -> (r: Option<u64>)
    ensures
        r == earliest(a, b),
{
    match (a, b) {
        (Some(x), Some(y)) => Some(if x <= y { x } else { y }),
        (Some(x), None) => Some(x),
        (None, Some(y)) => Some(y),
        (None, None) => None,
    }
}

fn accumulate_block(
    deadline: &mut Option<u64>,
    reason: &mut BlockReason,
    candidate_deadline: u64,
    candidate_reason: BlockReason,
)
    ensures
        (*final(deadline), *final(reason)) == accumulated(
            *old(deadline),
            *old(reason),
            Some(candidate_deadline),
            candidate_reason,
        ),
{
    let replace = match *deadline {
        Some(current) => candidate_deadline >= current,
        None => true,
    };
    if replace {
        *deadline = Some(candidate_deadline);
        *reason = candidate_reason;
    }
}

} // verus!
