//! Mathematical model of one controller step. Every executable helper in
//! `controller` is proved equal to the function of the same role here.
use vstd::prelude::*;

use crate::config::{ControllerConfig, config_is_valid};
use crate::state::{ControlTemperature, ControllerState, CriticalFault, Phase};
use crate::temperature::MilliCelsius;
use crate::types::{
    BlockReason, Demand, EquipmentAction, EquipmentFamily, FanMode, Mode, OutputVector,
};

verus! {

/// An input to the controller.
#[derive(Clone, Copy, Debug, PartialEq, Eq, Structural)]
pub enum Event {
    Tick,
    SetMode(Mode),
    SetFanMode(FanMode),
    SetControlTemperature { value: MilliCelsius, valid_for_ms: u64 },
    ClearControlTemperature,
    SetActuatorArmed(bool),
    RaiseCriticalFault,
    ClearCriticalFault,
}

/// The outcome of one controller step.
#[derive(Clone, Debug, PartialEq, Eq)]
pub struct Transition {
    pub previous_action: EquipmentAction,
    pub next_action: EquipmentAction,
    pub previous_outputs: OutputVector,
    pub next_outputs: OutputVector,
    pub block_reason: BlockReason,
    pub next_deadline_ms: Option<u64>,
    pub state: ControllerState,
}

/// Action that idles the conditioning equipment while honouring the fan mode.
pub open spec fn fan_idle_action(fan_mode: FanMode) -> EquipmentAction {
    match fan_mode {
        FanMode::Auto => EquipmentAction::Idle,
        FanMode::On => EquipmentAction::FanOnly,
    }
}

pub open spec fn phase_for(action: EquipmentAction) -> Phase {
    match action {
        EquipmentAction::Idle => Phase::Idle,
        EquipmentAction::Heat => Phase::Heating,
        EquipmentAction::Cool => Phase::Cooling,
        EquipmentAction::FanOnly => Phase::FanOnly,
    }
}

/// Heating or cooling is running.
pub open spec fn is_conditioning(action: EquipmentAction) -> bool {
    action == EquipmentAction::Heat || action == EquipmentAction::Cool
}

/// Stops a running heat or cool cycle at `now`, recording the stop time of
/// its family; any other state is returned unchanged.
pub open spec fn stopped(s: ControllerState, now: u64) -> ControllerState {
    let idle = fan_idle_action(s.fan_mode);
    match s.action {
        EquipmentAction::Heat => ControllerState {
            last_heat_stopped_at_ms: Some(now),
            last_family_stopped: Some((EquipmentFamily::Heat, now)),
            action: idle,
            phase: phase_for(idle),
            current_action_started_at_ms: None,
            block_reason: BlockReason::Unblocked,
            ..s
        },
        EquipmentAction::Cool => ControllerState {
            last_cool_stopped_at_ms: Some(now),
            last_family_stopped: Some((EquipmentFamily::Cool, now)),
            action: idle,
            phase: phase_for(idle),
            current_action_started_at_ms: None,
            block_reason: BlockReason::Unblocked,
            ..s
        },
        _ => s,
    }
}

/// Stops any running cycle and de-energizes every contact.
pub open spec fn forced_safe(s: ControllerState, reason: BlockReason, stop_ms: u64) -> ControllerState {
    ControllerState {
        phase: Phase::FaultSafe,
        demand: Demand::Satisfied,
        action: EquipmentAction::Idle,
        outputs: OutputVector::spec_off(),
        block_reason: reason,
        current_action_started_at_ms: None,
        ..stopped(s, stop_ms)
    }
}

pub open spec fn finished(
    s: ControllerState,
    previous_action: EquipmentAction,
    previous_outputs: OutputVector,
    next_deadline_ms: Option<u64>,
) -> Transition {
    Transition {
        previous_action,
        next_action: s.action,
        previous_outputs,
        next_outputs: s.outputs,
        block_reason: s.block_reason,
        next_deadline_ms,
        state: s,
    }
}

pub open spec fn safe_transition_of(
    s: ControllerState,
    reason: BlockReason,
    phase_override: Option<Phase>,
    previous_action: EquipmentAction,
    previous_outputs: OutputVector,
    now: u64,
) -> Transition {
    let safe = forced_safe(s, reason, now);
    let safe = match phase_override {
        Some(phase) => ControllerState { phase, ..safe },
        None => safe,
    };
    finished(safe, previous_action, previous_outputs, None)
}

/// The state after an event has been recorded, before any decision.
pub open spec fn event_applied(s: ControllerState, event: Event, now: u64) -> ControllerState {
    match event {
        Event::Tick => s,
        Event::SetMode(mode) => ControllerState { mode, ..s },
        Event::SetFanMode(fan_mode) => ControllerState { fan_mode, ..s },
        Event::SetControlTemperature { value, valid_for_ms } => ControllerState {
            control_temperature: Some(
                ControlTemperature { value, valid_until_ms: now.saturating_add(valid_for_ms) },
            ),
            ..s
        },
        Event::ClearControlTemperature => ControllerState { control_temperature: None, ..s },
        Event::SetActuatorArmed(armed) => ControllerState { actuator_armed: armed, ..s },
        Event::RaiseCriticalFault => ControllerState {
            critical_fault: Some(CriticalFault::External),
            ..s
        },
        Event::ClearCriticalFault => ControllerState { critical_fault: None, ..s },
    }
}

/// Hysteresis demand for `temperature` given the mode and the running action.
pub open spec fn demand_for(s: ControllerState, temperature: MilliCelsius, c: ControllerConfig) -> Demand {
    let t = temperature@;
    let k = c.comfort;
    match s.mode {
        Mode::Off => Demand::Satisfied,
        Mode::Heat => if s.action == EquipmentAction::Heat {
            if t >= k.heat_off@ { Demand::Satisfied } else { Demand::Heat }
        } else if t <= k.heat_on@ {
            Demand::Heat
        } else {
            Demand::Satisfied
        },
        Mode::Cool => if s.action == EquipmentAction::Cool {
            if t <= k.cool_off@ { Demand::Satisfied } else { Demand::Cool }
        } else if t >= k.cool_on@ {
            Demand::Cool
        } else {
            Demand::Satisfied
        },
        Mode::Auto => match s.action {
            EquipmentAction::Heat => if t >= k.cool_on@ {
                Demand::Cool
            } else if t >= k.heat_off@ {
                Demand::Satisfied
            } else {
                Demand::Heat
            },
            EquipmentAction::Cool => if t <= k.heat_on@ {
                Demand::Heat
            } else if t <= k.cool_off@ {
                Demand::Satisfied
            } else {
                Demand::Cool
            },
            _ => if t <= k.heat_on@ {
                Demand::Heat
            } else if t >= k.cool_on@ {
                Demand::Cool
            } else {
                Demand::Satisfied
            },
        },
    }
}

/// `deadline` while it is still in the future of `now`.
pub open spec fn pending(deadline: u64, now: u64) -> Option<u64> {
    if now < deadline { Some(deadline) } else { None }
}

/// Deadline `duration` after an optional start instant (saturating), while
/// it is still pending.
pub open spec fn deadline_since(start: Option<u64>, duration: u64, now: u64) -> Option<u64> {
    match start {
        Some(t) => pending(t.saturating_add(duration), now),
        None => None,
    }
}

/// First instant at which the control temperature can become invalid.
pub open spec fn sensor_deadline(s: ControllerState) -> Option<u64> {
    match s.control_temperature {
        Some(ct) => ct.valid_until_ms.checked_add(1),
        None => None,
    }
}

/// Pending changeover deadline that blocks starting `requested` after the
/// other family stopped.
pub open spec fn changeover_deadline(s: ControllerState, requested: EquipmentFamily, changeover_ms: u64, now: u64) -> Option<u64> {
    match s.last_family_stopped {
        Some((family, t)) => if family == requested {
            None
        } else {
            pending(t.saturating_add(changeover_ms), now)
        },
        None => None,
    }
}

/// The contact vector for `action` after a continuous-fan request.
pub open spec fn fan_overridden(action: EquipmentAction, fan_mode: FanMode, outputs: OutputVector, c: ControllerConfig) -> OutputVector {
    if fan_mode != FanMode::On {
        outputs
    } else if action == EquipmentAction::Heat && !c.equipment.allow_continuous_fan_with_heat {
        outputs
    } else {
        OutputVector { g: true, ..outputs }
    }
}

/// The contact vector the profile and fan mode give to an action.
pub open spec fn outputs_of(action: EquipmentAction, fan_mode: FanMode, c: ControllerConfig) -> OutputVector {
    fan_overridden(action, fan_mode, c.equipment.spec_outputs_for(action), c)
}

pub open spec fn finalized(
    s: ControllerState,
    previous_action: EquipmentAction,
    previous_outputs: OutputVector,
    next_deadline_ms: Option<u64>,
    now: u64,
    c: ControllerConfig,
) -> Transition {
    let outputs = outputs_of(s.action, s.fan_mode, c);
    if outputs.heat_cool_conflict() {
        let faulted = ControllerState {
            critical_fault: Some(CriticalFault::OutputInvariantViolation),
            ..s
        };
        finished(forced_safe(faulted, BlockReason::CriticalFault, now), previous_action, previous_outputs, None)
    } else {
        finished(ControllerState { outputs, ..s }, previous_action, previous_outputs, next_deadline_ms)
    }
}

/// The earlier of two optional deadlines.
pub open spec fn earliest(a: Option<u64>, b: Option<u64>) -> Option<u64> {
    match (a, b) {
        (Some(x), Some(y)) => Some(if x <= y { x } else { y }),
        (Some(x), None) => Some(x),
        (None, Some(y)) => Some(y),
        (None, None) => None,
    }
}

/// Keeps the latest blocking deadline; a later candidate (or an equal one)
/// takes over the reason.
pub open spec fn accumulated(
    deadline: Option<u64>,
    reason: BlockReason,
    candidate: Option<u64>,
    candidate_reason: BlockReason,
) -> (Option<u64>, BlockReason) {
    match candidate {
        Some(cd) => match deadline {
            Some(current) => if cd >= current {
                (Some(cd), candidate_reason)
            } else {
                (deadline, reason)
            },
            None => (Some(cd), candidate_reason),
        },
        None => (deadline, reason),
    }
}

/// The latest pending start constraint for a family (startup lockout,
/// minimum off time, changeover) and the reason that belongs to it.
pub open spec fn start_gate(
    s: ControllerState,
    now: u64,
    startup_lockout_ms: u64,
    stopped_at: Option<u64>,
    min_off_ms: u64,
    min_off_reason: BlockReason,
    family: EquipmentFamily,
    changeover_ms: u64,
) -> (Option<u64>, BlockReason) {
    let a = accumulated(
        None,
        BlockReason::Unblocked,
        pending(s.booted_at_ms.saturating_add(startup_lockout_ms), now),
        BlockReason::StartupLockout,
    );
    let b = accumulated(a.0, a.1, deadline_since(stopped_at, min_off_ms, now), min_off_reason);
    accumulated(b.0, b.1, changeover_deadline(s, family, changeover_ms, now), BlockReason::ChangeoverDelay)
}

pub open spec fn heat_gate(s: ControllerState, now: u64, c: ControllerConfig) -> (Option<u64>, BlockReason) {
    start_gate(
        s,
        now,
        c.timing.heating_startup_lockout_ms,
        s.last_heat_stopped_at_ms,
        c.timing.heating_min_off_ms,
        BlockReason::MinHeatOff,
        EquipmentFamily::Heat,
        c.timing.changeover_ms,
    )
}

pub open spec fn cool_gate(s: ControllerState, now: u64, c: ControllerConfig) -> (Option<u64>, BlockReason) {
    start_gate(
        s,
        now,
        c.timing.cooling_startup_lockout_ms,
        s.last_cool_stopped_at_ms,
        c.timing.cooling_min_off_ms,
        BlockReason::MinCoolOff,
        EquipmentFamily::Cool,
        c.timing.changeover_ms,
    )
}

/// Action chosen from idle for a demand, with the blocking reason and the
/// deadline at which the block lifts.
pub open spec fn idle_choice(s: ControllerState, demand: Demand, now: u64, c: ControllerConfig) -> (EquipmentAction, BlockReason, Option<u64>) {
    match demand {
        Demand::Satisfied => (fan_idle_action(s.fan_mode), BlockReason::Unblocked, None),
        Demand::Heat => {
            let g = heat_gate(s, now, c);
            if g.0 is Some {
                (fan_idle_action(s.fan_mode), g.1, g.0)
            } else {
                (EquipmentAction::Heat, BlockReason::Unblocked, None)
            }
        },
        Demand::Cool => {
            let g = cool_gate(s, now, c);
            if g.0 is Some {
                (fan_idle_action(s.fan_mode), g.1, g.0)
            } else {
                (EquipmentAction::Cool, BlockReason::Unblocked, None)
            }
        },
    }
}

pub open spec fn mode_allows(mode: Mode, action: EquipmentAction) -> bool {
    match action {
        EquipmentAction::Heat => mode == Mode::Heat || mode == Mode::Auto,
        EquipmentAction::Cool => mode == Mode::Cool || mode == Mode::Auto,
        _ => true,
    }
}

pub open spec fn opposite_demand(action: EquipmentAction, demand: Demand) -> bool {
    (action == EquipmentAction::Heat && demand == Demand::Cool)
        || (action == EquipmentAction::Cool && demand == Demand::Heat)
}

/// Break-before-make on a family reversal: the running family is stopped and
/// a restart is scheduled, at the latest start constraint or one millisecond
/// later when nothing else blocks.
pub open spec fn reversal_break(
    s: ControllerState,
    previous_action: EquipmentAction,
    demand: Demand,
    now: u64,
    c: ControllerConfig,
) -> (ControllerState, Option<(BlockReason, u64)>) {
    if !opposite_demand(previous_action, demand) {
        (s, None)
    } else {
        let s1 = stopped(s, now);
        let choice = idle_choice(s1, demand, now, c);
        (s1, Some(match choice.2 {
            Some(d) => (choice.1, d),
            None => (BlockReason::ChangeoverDelay, now.saturating_add(1)),
        }))
    }
}

/// Switches to `action`, stopping a running cycle first and recording when a
/// new cycle starts.
pub open spec fn action_set(s: ControllerState, action: EquipmentAction, now: u64) -> ControllerState {
    if s.action == action {
        ControllerState { phase: phase_for(action), ..s }
    } else {
        ControllerState {
            action,
            phase: phase_for(action),
            current_action_started_at_ms: if is_conditioning(action) { Some(now) } else { None },
            ..stopped(s, now)
        }
    }
}

pub open spec fn running_family_policy(
    s: ControllerState,
    demand: Demand,
    same_family: Demand,
    opposite_family: Demand,
    minimum_run_ms: u64,
    minimum_run_reason: BlockReason,
    now: u64,
) -> (ControllerState, Option<u64>) {
    if demand == same_family {
        (s, None)
    } else if demand == opposite_family {
        (stopped(s, now), None)
    } else {
        match deadline_since(s.current_action_started_at_ms, minimum_run_ms, now) {
            Some(d) => (ControllerState { block_reason: minimum_run_reason, ..s }, Some(d)),
            None => (stopped(s, now), None),
        }
    }
}

pub open spec fn active_cycle_policy(s: ControllerState, demand: Demand, now: u64, c: ControllerConfig) -> (ControllerState, Option<u64>) {
    if !mode_allows(s.mode, s.action) {
        (stopped(s, now), None)
    } else {
        match s.action {
            EquipmentAction::Heat => running_family_policy(
                s,
                demand,
                Demand::Heat,
                Demand::Cool,
                c.timing.heating_min_run_ms,
                BlockReason::MinHeatRun,
                now,
            ),
            EquipmentAction::Cool => running_family_policy(
                s,
                demand,
                Demand::Cool,
                Demand::Heat,
                c.timing.cooling_min_run_ms,
                BlockReason::MinCoolRun,
                now,
            ),
            _ => (s, None),
        }
    }
}

/// Decision for an armed, fault-free controller with a valid configuration
/// and a control temperature that is still valid.
#[verifier::opaque]
pub open spec fn conditioning_decision(
    s: ControllerState,
    temperature: MilliCelsius,
    previous_action: EquipmentAction,
    previous_outputs: OutputVector,
    now: u64,
    c: ControllerConfig,
) -> Transition {
    let demand = demand_for(s, temperature, c);
    let s1 = ControllerState { demand, ..s };
    let cycle = active_cycle_policy(s1, demand, now, c);
    let deadline = earliest(cycle.1, sensor_deadline(s1));
    let brk = reversal_break(cycle.0, previous_action, demand, now, c);
    let s3 = brk.0;
    match brk.1 {
        Some((reason, family_deadline)) => finalized(
            ControllerState { block_reason: reason, ..s3 },
            previous_action,
            previous_outputs,
            earliest(deadline, Some(family_deadline)),
            now,
            c,
        ),
        None => if is_conditioning(s3.action) {
            finalized(s3, previous_action, previous_outputs, deadline, now, c)
        } else {
            let choice = idle_choice(s3, demand, now, c);
            finalized(
                action_set(ControllerState { block_reason: choice.1, ..s3 }, choice.0, now),
                previous_action,
                previous_outputs,
                earliest(deadline, choice.2),
                now,
                c,
            )
        },
    }
}

pub open spec fn armed_evaluation(
    s: ControllerState,
    previous_action: EquipmentAction,
    previous_outputs: OutputVector,
    now: u64,
    c: ControllerConfig,
) -> Transition {
    if s.mode == Mode::Off {
        let s1 = ControllerState { demand: Demand::Satisfied, ..stopped(s, now) };
        finalized(
            action_set(s1, fan_idle_action(s1.fan_mode), now),
            previous_action,
            previous_outputs,
            None,
            now,
            c,
        )
    } else {
        match s.control_temperature {
            Some(ct) => if now > ct.valid_until_ms {
                safe_transition_of(stopped(s, now), BlockReason::SensorInvalid, None, previous_action, previous_outputs, now)
            } else {
                conditioning_decision(s, ct.value, previous_action, previous_outputs, now, c)
            },
            None => safe_transition_of(stopped(s, now), BlockReason::SensorInvalid, None, previous_action, previous_outputs, now),
        }
    }
}

/// The complete transition of the controller for one event at `now`.
pub open spec fn step_of(s: ControllerState, event: Event, now: u64, c: ControllerConfig) -> Transition {
    let previous_action = s.action;
    let previous_outputs = s.outputs;
    if now < s.last_evaluated_at_ms {
        let faulted = ControllerState { critical_fault: Some(CriticalFault::NonMonotonicTime), ..s };
        finished(
            forced_safe(faulted, BlockReason::NonMonotonicTime, s.last_evaluated_at_ms),
            previous_action,
            previous_outputs,
            None,
        )
    } else {
        let s1 = event_applied(ControllerState { last_evaluated_at_ms: now, ..s }, event, now);
        if !config_is_valid(c) {
            safe_transition_of(s1, BlockReason::ConfigInvalid, None, previous_action, previous_outputs, now)
        } else if s1.critical_fault is Some {
            safe_transition_of(s1, BlockReason::CriticalFault, None, previous_action, previous_outputs, now)
        } else if !s1.actuator_armed {
            safe_transition_of(s1, BlockReason::ActuatorNotArmed, Some(Phase::BootSafe), previous_action, previous_outputs, now)
        } else {
            armed_evaluation(s1, previous_action, previous_outputs, now, c)
        }
    }
}

} // verus!
