//! Properties of the controller that span its functions: what every step
//! keeps, and what no step can do.
use vstd::prelude::*;

use crate::config::{ConfigError, ControllerConfig, config_error, config_is_valid};
use crate::invariants::state_is_safe;
use crate::model::{
    Event, Transition, action_set, active_cycle_policy, changeover_deadline, conditioning_decision,
    cool_gate, deadline_since, demand_for, earliest, event_applied, finalized, heat_gate,
    fan_idle_action, idle_choice, is_conditioning, outputs_of, pending, reversal_break, safe_transition_of,
    sensor_deadline, start_gate, step_of, stopped,
};
use crate::state::{ControllerState, CriticalFault, Phase, boot_state};
use crate::temperature::MilliCelsius;
use crate::types::{
    BlockReason, Demand, EquipmentAction, EquipmentFamily, FanMode, Mode, OutputVector,
};

verus! {

/// W is only called while heating and Y only while cooling.
pub open spec fn outputs_follow_action(s: ControllerState) -> bool {
    &&& s.outputs.w ==> s.action == EquipmentAction::Heat
    &&& s.outputs.y ==> s.action == EquipmentAction::Cool
}

/// Under a valid configuration the vector of every action is free of a
/// heat/cool conflict, calls W only for heat and Y only for cool.
proof fn lemma_valid_outputs(action: EquipmentAction, fan_mode: FanMode, c: ControllerConfig)
    requires
        config_is_valid(c),
    ensures
        !outputs_of(action, fan_mode, c).heat_cool_conflict(),
        outputs_of(action, fan_mode, c).w ==> action == EquipmentAction::Heat,
        outputs_of(action, fan_mode, c).y ==> action == EquipmentAction::Cool,
{
}

/// What finalizing a decision yields under a valid configuration.
proof fn lemma_finalized_valid(
    s: ControllerState,
    pa: EquipmentAction,
    po: OutputVector,
    d: Option<u64>,
    now: u64,
    c: ControllerConfig,
)
    requires
        config_is_valid(c),
    ensures
        finalized(s, pa, po, d, now, c) == (Transition {
            previous_action: pa,
            next_action: s.action,
            previous_outputs: po,
            next_outputs: outputs_of(s.action, s.fan_mode, c),
            block_reason: s.block_reason,
            next_deadline_ms: d,
            state: ControllerState { outputs: outputs_of(s.action, s.fan_mode, c), ..s },
        }),
{
    lemma_valid_outputs(s.action, s.fan_mode, c);
}

/// Facts about an armed, fault-free decision with a valid configuration.
proof fn lemma_decision(
    s: ControllerState,
    temperature: MilliCelsius,
    pa: EquipmentAction,
    po: OutputVector,
    now: u64,
    c: ControllerConfig,
)
    requires
        config_is_valid(c),
        pa == s.action,
        s.actuator_armed,
        s.critical_fault is None,
        s.mode != Mode::Off,
    ensures
        ({
            let t = conditioning_decision(s, temperature, pa, po, now, c);
            &&& state_is_safe(t.state)
            &&& outputs_follow_action(t.state)
            &&& t.next_action == t.state.action
            &&& t.next_outputs == t.state.outputs
            &&& t.next_action == EquipmentAction::Cool && s.action != EquipmentAction::Cool
                ==> s.action != EquipmentAction::Heat && cool_gate(s, now, c).0 is None
            &&& t.next_action == EquipmentAction::Heat && s.action != EquipmentAction::Heat
                ==> s.action != EquipmentAction::Cool && heat_gate(s, now, c).0 is None
            &&& t.state.mode == s.mode
            &&& t.state.fan_mode == s.fan_mode
            &&& t.state.actuator_armed == s.actuator_armed
            &&& t.state.critical_fault == s.critical_fault
            &&& t.state.control_temperature == s.control_temperature
            &&& t.state.last_evaluated_at_ms == s.last_evaluated_at_ms
            &&& t.state.booted_at_ms == s.booted_at_ms
            &&& t.state.demand == demand_for(s, temperature, c)
            &&& t.previous_action == pa
            &&& t.previous_outputs == po
        }),
{
    reveal(conditioning_decision);
    let demand = demand_for(s, temperature, c);
    let s1 = ControllerState { demand, ..s };
    let cycle = active_cycle_policy(s1, demand, now, c);
    let deadline = earliest(cycle.1, sensor_deadline(s1));
    let brk = reversal_break(cycle.0, pa, demand, now, c);
    let s3 = brk.0;
    match brk.1 {
        Some((reason, fd)) => {
            lemma_finalized_valid(ControllerState { block_reason: reason, ..s3 }, pa, po, earliest(deadline, Some(fd)), now, c);
        },
        None => {
            if is_conditioning(s3.action) {
                lemma_finalized_valid(s3, pa, po, deadline, now, c);
            } else {
                let choice = idle_choice(s3, demand, now, c);
                let s5 = action_set(ControllerState { block_reason: choice.1, ..s3 }, choice.0, now);
                lemma_finalized_valid(s5, pa, po, earliest(deadline, choice.2), now, c);
            }
        },
    }
}

/// A start gate blocks exactly when one of its three constraints is pending.
proof fn lemma_gate_open(
    s: ControllerState,
    now: u64,
    lockout_ms: u64,
    stopped_at: Option<u64>,
    min_off_ms: u64,
    reason: BlockReason,
    family: EquipmentFamily,
    changeover_ms: u64,
)
    ensures
        start_gate(s, now, lockout_ms, stopped_at, min_off_ms, reason, family, changeover_ms).0 is None
            <==> (pending(s.booted_at_ms.saturating_add(lockout_ms), now) is None
                && deadline_since(stopped_at, min_off_ms, now) is None
                && changeover_deadline(s, family, changeover_ms, now) is None),
{
}

/// A running cycle inside its minimum run time, whose family the mode still
/// allows and whose demand is not the opposite family, keeps running.
proof fn lemma_decision_holds_running_cycle(
    s: ControllerState,
    temperature: MilliCelsius,
    po: OutputVector,
    now: u64,
    c: ControllerConfig,
)
    requires
        config_is_valid(c),
        s.action == EquipmentAction::Heat ==> {
            &&& (s.mode == Mode::Heat || s.mode == Mode::Auto)
            &&& demand_for(s, temperature, c) != Demand::Cool
            &&& s.current_action_started_at_ms matches Some(t0)
                && now < t0.saturating_add(c.timing.heating_min_run_ms)
        },
        s.action == EquipmentAction::Cool ==> {
            &&& (s.mode == Mode::Cool || s.mode == Mode::Auto)
            &&& demand_for(s, temperature, c) != Demand::Heat
            &&& s.current_action_started_at_ms matches Some(t0)
                && now < t0.saturating_add(c.timing.cooling_min_run_ms)
        },
        is_conditioning(s.action),
    ensures
        conditioning_decision(s, temperature, s.action, po, now, c).next_action == s.action,
{
    reveal(conditioning_decision);
    let demand = demand_for(s, temperature, c);
    let s1 = ControllerState { demand, ..s };
    let cycle = active_cycle_policy(s1, demand, now, c);
    assert(cycle.0.action == s.action);
    let deadline = earliest(cycle.1, sensor_deadline(s1));
    lemma_finalized_valid(cycle.0, s.action, po, deadline, now, c);
}

/// The deadline of an armed decision is the earliest of the pending
/// constraint (minimum run of a held cycle, or the start gate of a blocked
/// start) and the sensor expiry.
proof fn lemma_decision_deadline(
    s: ControllerState,
    temperature: MilliCelsius,
    po: OutputVector,
    now: u64,
    c: ControllerConfig,
)
    requires
        config_is_valid(c),
        s.control_temperature matches Some(ct) && now <= ct.valid_until_ms,
    ensures
        ({
            let t = conditioning_decision(s, temperature, s.action, po, now, c);
            let sd = sensor_deadline(s);
            let d = demand_for(s, temperature, c);
            &&& t.next_deadline_ms matches Some(y) ==> y > now || now == u64::MAX
            &&& sd matches Some(x) ==> (t.next_deadline_ms matches Some(y) && y <= x)
            &&& (!is_conditioning(s.action) && !is_conditioning(t.next_action) && d == Demand::Heat)
                ==> t.next_deadline_ms == earliest(sd, heat_gate(s, now, c).0)
                    && t.block_reason == heat_gate(s, now, c).1
            &&& (!is_conditioning(s.action) && !is_conditioning(t.next_action) && d == Demand::Cool)
                ==> t.next_deadline_ms == earliest(sd, cool_gate(s, now, c).0)
                    && t.block_reason == cool_gate(s, now, c).1
            &&& (s.action == EquipmentAction::Heat && t.next_action == EquipmentAction::Heat)
                ==> t.next_deadline_ms == earliest(
                    if d == Demand::Heat {
                        None
                    } else {
                        deadline_since(s.current_action_started_at_ms, c.timing.heating_min_run_ms, now)
                    },
                    sd,
                )
            &&& (s.action == EquipmentAction::Cool && t.next_action == EquipmentAction::Cool)
                ==> t.next_deadline_ms == earliest(
                    if d == Demand::Cool {
                        None
                    } else {
                        deadline_since(s.current_action_started_at_ms, c.timing.cooling_min_run_ms, now)
                    },
                    sd,
                )
        }),
{
    reveal(conditioning_decision);
    let demand = demand_for(s, temperature, c);
    let s1 = ControllerState { demand, ..s };
    let cycle = active_cycle_policy(s1, demand, now, c);
    let deadline = earliest(cycle.1, sensor_deadline(s1));
    let brk = reversal_break(cycle.0, s.action, demand, now, c);
    let s3 = brk.0;
    match brk.1 {
        Some((reason, fd)) => {
            lemma_finalized_valid(ControllerState { block_reason: reason, ..s3 }, s.action, po, earliest(deadline, Some(fd)), now, c);
        },
        None => {
            if is_conditioning(s3.action) {
                lemma_finalized_valid(s3, s.action, po, deadline, now, c);
            } else {
                let choice = idle_choice(s3, demand, now, c);
                let s5 = action_set(ControllerState { block_reason: choice.1, ..s3 }, choice.0, now);
                lemma_finalized_valid(s5, s.action, po, earliest(deadline, choice.2), now, c);
            }
        },
    }
}

/// Reasons with which a safety stop releases every contact.
pub open spec fn is_safety_stop(reason: BlockReason) -> bool {
    ||| reason == BlockReason::NonMonotonicTime
    ||| reason == BlockReason::ConfigInvalid
    ||| reason == BlockReason::CriticalFault
    ||| reason == BlockReason::ActuatorNotArmed
    ||| reason == BlockReason::SensorInvalid
}

/// Stopping is idempotent: stopping an already stopped state again, at any
/// time, changes nothing; a state that is neither heating nor cooling is
/// left as it is.
pub proof fn law_stop_is_idempotent(s: ControllerState, first: u64, second: u64)
    ensures
        stopped(stopped(s, first), second) == stopped(s, first),
        !is_conditioning(s.action) ==> stopped(s, first) == s,
        !is_conditioning(stopped(s, first).action),
{
}

/// The hysteresis thresholds of demand. From idle, heat is demanded at or
/// below `heat_on` and cooling at or above `cool_on`; a running heat cycle
/// keeps its demand strictly below `heat_off` and a running cool cycle
/// strictly above `cool_off`. In mode AUTO a running family reverses when the
/// opposite start threshold is reached. Mode OFF never demands.
pub proof fn law_demand_thresholds(s: ControllerState, t: MilliCelsius, c: ControllerConfig)
    ensures
        ({
            let d = demand_for(s, t, c);
            let k = c.comfort;
            &&& s.mode == Mode::Off ==> d == Demand::Satisfied
            &&& (s.mode == Mode::Heat && s.action != EquipmentAction::Heat)
                ==> (d == Demand::Heat <==> t@ <= k.heat_on@) && d != Demand::Cool
            &&& (s.mode == Mode::Heat && s.action == EquipmentAction::Heat)
                ==> (d == Demand::Heat <==> t@ < k.heat_off@) && d != Demand::Cool
            &&& (s.mode == Mode::Cool && s.action != EquipmentAction::Cool)
                ==> (d == Demand::Cool <==> t@ >= k.cool_on@) && d != Demand::Heat
            &&& (s.mode == Mode::Cool && s.action == EquipmentAction::Cool)
                ==> (d == Demand::Cool <==> t@ > k.cool_off@) && d != Demand::Heat
            &&& (s.mode == Mode::Auto && !is_conditioning(s.action))
                ==> (d == Demand::Heat <==> t@ <= k.heat_on@)
                    && (d == Demand::Cool <==> (t@ > k.heat_on@ && t@ >= k.cool_on@))
            &&& (s.mode == Mode::Auto && s.action == EquipmentAction::Heat)
                ==> (d == Demand::Cool <==> t@ >= k.cool_on@)
                    && (d == Demand::Heat <==> (t@ < k.cool_on@ && t@ < k.heat_off@))
            &&& (s.mode == Mode::Auto && s.action == EquipmentAction::Cool)
                ==> (d == Demand::Heat <==> t@ <= k.heat_on@)
                    && (d == Demand::Cool <==> (t@ > k.heat_on@ && t@ > k.cool_off@))
        }),
{
}

/// Demand is monotone in temperature: a colder reading never withdraws a
/// heat demand, and a warmer one never withdraws a cool demand.
pub proof fn law_demand_is_monotone(s: ControllerState, t1: MilliCelsius, t2: MilliCelsius, c: ControllerConfig)
    requires
        t1@ <= t2@,
    ensures
        demand_for(s, t2, c) == Demand::Heat ==> demand_for(s, t1, c) == Demand::Heat,
        demand_for(s, t1, c) == Demand::Cool ==> demand_for(s, t2, c) == Demand::Cool,
{
}

/// The later of two optional deadlines.
pub open spec fn latest(a: Option<u64>, b: Option<u64>) -> Option<u64> {
    match (a, b) {
        (Some(x), Some(y)) => Some(if x >= y { x } else { y }),
        (Some(x), None) => Some(x),
        (None, Some(y)) => Some(y),
        (None, None) => None,
    }
}

/// A blocked start waits for its longest constraint: the start gate's
/// deadline is the latest of the pending startup lockout, minimum off time
/// and changeover deadlines, and its reason belongs to that latest one (on a
/// tie, to the one checked last, in the order lockout, minimum off,
/// changeover).
pub proof fn law_start_waits_for_longest_constraint(
    s: ControllerState,
    now: u64,
    lockout_ms: u64,
    stopped_at: Option<u64>,
    min_off_ms: u64,
    min_off_reason: BlockReason,
    family: EquipmentFamily,
    changeover_ms: u64,
)
    ensures
        ({
            let lockout = pending(s.booted_at_ms.saturating_add(lockout_ms), now);
            let min_off = deadline_since(stopped_at, min_off_ms, now);
            let changeover = changeover_deadline(s, family, changeover_ms, now);
            let g = start_gate(s, now, lockout_ms, stopped_at, min_off_ms, min_off_reason, family, changeover_ms);
            &&& g.0 == latest(latest(lockout, min_off), changeover)
            &&& g.0 is None ==> g.1 == BlockReason::Unblocked
            &&& (changeover matches Some(d) && g.0 == Some(d)) ==> g.1 == BlockReason::ChangeoverDelay
            &&& (min_off matches Some(d) && g.0 == Some(d) && changeover != Some(d))
                ==> g.1 == min_off_reason
            &&& (lockout matches Some(d) && g.0 == Some(d) && changeover != Some(d) && min_off != Some(d))
                ==> g.1 == BlockReason::StartupLockout
        }),
{
}

/// What a monotonic step keeps of the state after the event.
proof fn lemma_step_frames(s: ControllerState, e: Event, now: u64, c: ControllerConfig)
    requires
        now >= s.last_evaluated_at_ms,
    ensures
        ({
            let t = step_of(s, e, now, c);
            let s1 = event_applied(ControllerState { last_evaluated_at_ms: now, ..s }, e, now);
            &&& t.state.mode == s1.mode
            &&& t.state.actuator_armed == s1.actuator_armed
            &&& t.state.critical_fault == s1.critical_fault
            &&& t.state.control_temperature == s1.control_temperature
        }),
{
    lemma_step(s, e, now, c);
}

/// On an armed, fault-free step outside mode OFF with a valid configuration
/// and a valid sensor, the step is the conditioning decision.
proof fn lemma_step_decision_path(s: ControllerState, e: Event, now: u64, c: ControllerConfig)
    requires
        now >= s.last_evaluated_at_ms,
        config_is_valid(c),
        ({
            let s1 = event_applied(ControllerState { last_evaluated_at_ms: now, ..s }, e, now);
            &&& s1.critical_fault is None
            &&& s1.actuator_armed
            &&& s1.mode != Mode::Off
            &&& s1.control_temperature matches Some(ct) && now <= ct.valid_until_ms
        }),
    ensures
        ({
            let s1 = event_applied(ControllerState { last_evaluated_at_ms: now, ..s }, e, now);
            step_of(s, e, now, c) == conditioning_decision(
                s1,
                s1.control_temperature.unwrap().value,
                s.action,
                s.outputs,
                now,
                c,
            )
        }),
{
}

/// A running cycle whose minimum run is over and whose stop threshold is
/// reached is stopped by the decision, with its stop recorded at `now`.
proof fn lemma_decision_ends_satisfied_cycle(
    s: ControllerState,
    temperature: MilliCelsius,
    po: OutputVector,
    now: u64,
    c: ControllerConfig,
)
    requires
        config_is_valid(c),
        s.action == EquipmentAction::Cool ==> {
            &&& (s.mode == Mode::Cool || s.mode == Mode::Auto)
            &&& temperature@ <= c.comfort.cool_off@
            &&& s.current_action_started_at_ms matches Some(t0)
            &&& now >= s.current_action_started_at_ms.unwrap().saturating_add(c.timing.cooling_min_run_ms)
        },
        s.action == EquipmentAction::Heat ==> {
            &&& (s.mode == Mode::Heat || s.mode == Mode::Auto)
            &&& temperature@ >= c.comfort.heat_off@
            &&& s.current_action_started_at_ms matches Some(t0)
            &&& now >= s.current_action_started_at_ms.unwrap().saturating_add(c.timing.heating_min_run_ms)
        },
        is_conditioning(s.action),
    ensures
        ({
            let t = conditioning_decision(s, temperature, s.action, po, now, c);
            &&& t.next_action != s.action
            &&& s.action == EquipmentAction::Cool ==> t.state.last_cool_stopped_at_ms == Some(now) && !t.next_outputs.y
            &&& s.action == EquipmentAction::Heat ==> t.state.last_heat_stopped_at_ms == Some(now) && !t.next_outputs.w
        }),
{
    reveal(conditioning_decision);
    let demand = demand_for(s, temperature, c);
    let s1 = ControllerState { demand, ..s };
    let cycle = active_cycle_policy(s1, demand, now, c);
    let deadline = earliest(cycle.1, sensor_deadline(s1));
    let brk = reversal_break(cycle.0, s.action, demand, now, c);
    let s3 = brk.0;
    match brk.1 {
        Some((reason, fd)) => {
            lemma_finalized_valid(ControllerState { block_reason: reason, ..s3 }, s.action, po, earliest(deadline, Some(fd)), now, c);
        },
        None => {
            let choice = idle_choice(s3, demand, now, c);
            let s5 = action_set(ControllerState { block_reason: choice.1, ..s3 }, choice.0, now);
            lemma_valid_outputs(s5.action, s5.fan_mode, c);
            lemma_finalized_valid(s5, s.action, po, earliest(deadline, choice.2), now, c);
        },
    }
}

/// From rest, a demand whose start constraints have all passed starts its
/// family in the decision.
proof fn lemma_decision_starts_when_unblocked(
    s: ControllerState,
    temperature: MilliCelsius,
    po: OutputVector,
    now: u64,
    c: ControllerConfig,
    family: EquipmentAction,
)
    requires
        config_is_valid(c),
        !is_conditioning(s.action),
        family == EquipmentAction::Cool ==> {
            &&& (s.mode == Mode::Cool || s.mode == Mode::Auto)
            &&& temperature@ >= c.comfort.cool_on@
            &&& cool_gate(s, now, c).0 is None
        },
        family == EquipmentAction::Heat ==> {
            &&& (s.mode == Mode::Heat || s.mode == Mode::Auto)
            &&& temperature@ <= c.comfort.heat_on@
            &&& heat_gate(s, now, c).0 is None
        },
        is_conditioning(family),
    ensures
        conditioning_decision(s, temperature, s.action, po, now, c).next_action == family,
        conditioning_decision(s, temperature, s.action, po, now, c).state.current_action_started_at_ms == Some(now),
        family == EquipmentAction::Cool ==> conditioning_decision(s, temperature, s.action, po, now, c).next_outputs.y,
        family == EquipmentAction::Heat ==> conditioning_decision(s, temperature, s.action, po, now, c).next_outputs.w,
{
    reveal(conditioning_decision);
    let demand = demand_for(s, temperature, c);
    let s1 = ControllerState { demand, ..s };
    let cycle = active_cycle_policy(s1, demand, now, c);
    let deadline = earliest(cycle.1, sensor_deadline(s1));
    let s3 = cycle.0;
    let choice = idle_choice(s3, demand, now, c);
    let s5 = action_set(ControllerState { block_reason: choice.1, ..s3 }, choice.0, now);
    lemma_finalized_valid(s5, s.action, po, earliest(deadline, choice.2), now, c);
}

/// Cooling starts as soon as nothing blocks it: an armed, fault-free
/// controller with a valid configuration at rest in mode COOL or AUTO that
/// reads at least `cool_on`, past the cooling startup lockout since boot, past
/// the cooling minimum off time since the last cooling stop, and past the
/// changeover delay since heating last stopped, calls Y and starts a cooling
/// cycle at `now`.
pub proof fn law_cooling_starts_when_unblocked(
    s: ControllerState,
    e: Event,
    reading: MilliCelsius,
    now: u64,
    c: ControllerConfig,
)
    requires
        config_is_valid(c),
        now >= s.last_evaluated_at_ms,
        s.actuator_armed,
        s.critical_fault is None,
        s.mode == Mode::Cool || s.mode == Mode::Auto,
        s.action == EquipmentAction::Idle || s.action == EquipmentAction::FanOnly,
        step_reading(s, e, now, reading),
        reading@ >= c.comfort.cool_on@,
        now >= s.booted_at_ms.saturating_add(c.timing.cooling_startup_lockout_ms),
        s.last_cool_stopped_at_ms matches Some(t0) ==> now >= t0.saturating_add(c.timing.cooling_min_off_ms),
        s.last_family_stopped matches Some((EquipmentFamily::Heat, t0))
            ==> now >= t0.saturating_add(c.timing.changeover_ms),
    ensures
        step_of(s, e, now, c).next_action == EquipmentAction::Cool,
        step_of(s, e, now, c).next_outputs.y,
        step_of(s, e, now, c).state.current_action_started_at_ms == Some(now),
{
    let s1 = event_applied(ControllerState { last_evaluated_at_ms: now, ..s }, e, now);
    lemma_step_decision_path(s, e, now, c);
    lemma_gate_open(
        s1,
        now,
        c.timing.cooling_startup_lockout_ms,
        s1.last_cool_stopped_at_ms,
        c.timing.cooling_min_off_ms,
        BlockReason::MinCoolOff,
        EquipmentFamily::Cool,
        c.timing.changeover_ms,
    );
    lemma_decision_starts_when_unblocked(s1, reading, s.outputs, now, c, EquipmentAction::Cool);
    lemma_decision(s1, reading, s.action, s.outputs, now, c);
}

/// Heating starts as soon as nothing blocks it: an armed, fault-free
/// controller with a valid configuration at rest in mode HEAT or AUTO that
/// reads at most `heat_on`, past the heating startup lockout since boot, past
/// the heating minimum off time since the last heating stop, and past the
/// changeover delay since cooling last stopped, calls W and starts a heating
/// cycle at `now`.
pub proof fn law_heating_starts_when_unblocked(
    s: ControllerState,
    e: Event,
    reading: MilliCelsius,
    now: u64,
    c: ControllerConfig,
)
    requires
        config_is_valid(c),
        now >= s.last_evaluated_at_ms,
        s.actuator_armed,
        s.critical_fault is None,
        s.mode == Mode::Heat || s.mode == Mode::Auto,
        s.action == EquipmentAction::Idle || s.action == EquipmentAction::FanOnly,
        step_reading(s, e, now, reading),
        reading@ <= c.comfort.heat_on@,
        now >= s.booted_at_ms.saturating_add(c.timing.heating_startup_lockout_ms),
        s.last_heat_stopped_at_ms matches Some(t0) ==> now >= t0.saturating_add(c.timing.heating_min_off_ms),
        s.last_family_stopped matches Some((EquipmentFamily::Cool, t0))
            ==> now >= t0.saturating_add(c.timing.changeover_ms),
    ensures
        step_of(s, e, now, c).next_action == EquipmentAction::Heat,
        step_of(s, e, now, c).next_outputs.w,
        step_of(s, e, now, c).state.current_action_started_at_ms == Some(now),
{
    let s1 = event_applied(ControllerState { last_evaluated_at_ms: now, ..s }, e, now);
    lemma_step_decision_path(s, e, now, c);
    lemma_gate_open(
        s1,
        now,
        c.timing.heating_startup_lockout_ms,
        s1.last_heat_stopped_at_ms,
        c.timing.heating_min_off_ms,
        BlockReason::MinHeatOff,
        EquipmentFamily::Heat,
        c.timing.changeover_ms,
    );
    lemma_decision_starts_when_unblocked(s1, reading, s.outputs, now, c, EquipmentAction::Heat);
    lemma_decision(s1, reading, s.action, s.outputs, now, c);
}

/// The reading a step decides on: the temperature the event delivers, or on a
/// timer tick the stored one while it is still valid at `now`.
pub open spec fn step_reading(s: ControllerState, e: Event, now: u64, reading: MilliCelsius) -> bool {
    ||| (e == Event::Tick && (s.control_temperature matches Some(ct) && ct.value == reading
        && now <= ct.valid_until_ms))
    ||| (e matches Event::SetControlTemperature { value, .. } && value == reading)
}

/// A satisfied cooling cycle ends once its minimum run is over: an armed,
/// fault-free controller with a valid configuration that is cooling in mode
/// COOL or AUTO, and that reads a temperature at or below `cool_off` at or
/// after `cooling_min_run_ms` past the cycle's start, releases Y, stops
/// cooling and records the stop at `now`.
pub proof fn law_satisfied_cooling_ends_after_minimum_run(
    s: ControllerState,
    e: Event,
    reading: MilliCelsius,
    now: u64,
    c: ControllerConfig,
)
    requires
        config_is_valid(c),
        now >= s.last_evaluated_at_ms,
        s.actuator_armed,
        s.critical_fault is None,
        s.mode == Mode::Cool || s.mode == Mode::Auto,
        s.action == EquipmentAction::Cool,
        s.current_action_started_at_ms matches Some(t0) && now >= t0.saturating_add(c.timing.cooling_min_run_ms),
        step_reading(s, e, now, reading),
        reading@ <= c.comfort.cool_off@,
    ensures
        step_of(s, e, now, c).next_action != EquipmentAction::Cool,
        !step_of(s, e, now, c).next_outputs.y,
        step_of(s, e, now, c).state.last_cool_stopped_at_ms == Some(now),
{
    let s1 = event_applied(ControllerState { last_evaluated_at_ms: now, ..s }, e, now);
    lemma_step_decision_path(s, e, now, c);
    lemma_decision_ends_satisfied_cycle(s1, reading, s.outputs, now, c);
}

/// A satisfied heating cycle ends once its minimum run is over: an armed,
/// fault-free controller with a valid configuration that is heating in mode
/// HEAT or AUTO, and that reads a temperature at or above `heat_off` at or
/// after `heating_min_run_ms` past the cycle's start, releases W, stops
/// heating and records the stop at `now`.
pub proof fn law_satisfied_heating_ends_after_minimum_run(
    s: ControllerState,
    e: Event,
    reading: MilliCelsius,
    now: u64,
    c: ControllerConfig,
)
    requires
        config_is_valid(c),
        now >= s.last_evaluated_at_ms,
        s.actuator_armed,
        s.critical_fault is None,
        s.mode == Mode::Heat || s.mode == Mode::Auto,
        s.action == EquipmentAction::Heat,
        s.current_action_started_at_ms matches Some(t0) && now >= t0.saturating_add(c.timing.heating_min_run_ms),
        step_reading(s, e, now, reading),
        reading@ >= c.comfort.heat_off@,
    ensures
        step_of(s, e, now, c).next_action != EquipmentAction::Heat,
        !step_of(s, e, now, c).next_outputs.w,
        step_of(s, e, now, c).state.last_heat_stopped_at_ms == Some(now),
{
    let s1 = event_applied(ControllerState { last_evaluated_at_ms: now, ..s }, e, now);
    lemma_step_decision_path(s, e, now, c);
    lemma_decision_ends_satisfied_cycle(s1, reading, s.outputs, now, c);
}

/// A configuration the controller accepts has ordered comfort bands,
/// `heat_on < heat_off < cool_off < cool_on`, an all-off idle vector, W alone
/// (never Y) for heat, Y (never W) for cool and G without W or Y for the fan;
/// and every such configuration is accepted.
pub proof fn law_valid_config_is_ordered_and_safe(c: ControllerConfig)
    ensures
        config_is_valid(c) <==> {
            let k = c.comfort;
            let p = c.equipment;
            &&& k.heat_on@ < k.heat_off@
            &&& k.heat_off@ < k.cool_off@
            &&& k.cool_off@ < k.cool_on@
            &&& !p.idle.w && !p.idle.y && !p.idle.g
            &&& p.heat.w && !p.heat.y
            &&& p.cool.y && !p.cool.w
            &&& p.fan_only.g && !p.fan_only.w && !p.fan_only.y
        },
{
}

/// Every rejection names a relationship the configuration really violates,
/// and an inverted or empty heat band is always reported first, as
/// `HeatHysteresisInvalid`.
pub proof fn law_config_errors_name_their_violation(c: ControllerConfig)
    ensures
        ({
            let k = c.comfort;
            let p = c.equipment;
            &&& k.heat_on@ >= k.heat_off@ <==> config_error(c) == Some(ConfigError::HeatHysteresisInvalid)
            &&& config_error(c) == Some(ConfigError::CoolHysteresisInvalid) ==> k.cool_off@ >= k.cool_on@
            &&& config_error(c) == Some(ConfigError::AutoBandOverlap) ==> k.heat_off@ >= k.cool_off@
            &&& config_error(c) == Some(ConfigError::IdleMustBeOff) ==> (p.idle.w || p.idle.y || p.idle.g)
            &&& config_error(c) == Some(ConfigError::HeatMappingInvalid) ==> (!p.heat.w || p.heat.y)
            &&& config_error(c) == Some(ConfigError::CoolMappingInvalid) ==> (!p.cool.y || p.cool.w)
            &&& config_error(c) == Some(ConfigError::FanMappingInvalid)
                ==> (!p.fan_only.g || p.fan_only.w || p.fan_only.y)
            &&& config_error(c) != Some(ConfigError::HeatCoolConflict)
        }),
{
}

/// Facts about one step that the public laws are built from.
#[verifier::rlimit(40)]
proof fn lemma_step(s: ControllerState, e: Event, now: u64, c: ControllerConfig)
    ensures
        ({
            let t = step_of(s, e, now, c);
            let s1 = event_applied(ControllerState { last_evaluated_at_ms: now, ..s }, e, now);
            &&& state_is_safe(t.state)
            &&& outputs_follow_action(t.state)
            &&& t.next_action == t.state.action
            &&& t.next_outputs == t.state.outputs
            &&& t.previous_action == s.action
            &&& t.previous_outputs == s.outputs
            &&& t.next_action == EquipmentAction::Cool && s.action != EquipmentAction::Cool
                ==> s.action != EquipmentAction::Heat && cool_gate(s1, now, c).0 is None
            &&& t.next_action == EquipmentAction::Heat && s.action != EquipmentAction::Heat
                ==> s.action != EquipmentAction::Cool && heat_gate(s1, now, c).0 is None
            &&& now >= s.last_evaluated_at_ms ==> {
                &&& t.state.mode == s1.mode
                &&& t.state.actuator_armed == s1.actuator_armed
                &&& t.state.critical_fault == s1.critical_fault
                &&& t.state.control_temperature == s1.control_temperature
                &&& t.state.last_evaluated_at_ms == now
                &&& t.state.booted_at_ms == s.booted_at_ms
            }
        }),
{
    if now >= s.last_evaluated_at_ms {
        let s1 = event_applied(ControllerState { last_evaluated_at_ms: now, ..s }, e, now);
        if config_is_valid(c) && s1.critical_fault is None && s1.actuator_armed {
            let pa = s.action;
            let po = s.outputs;
            if s1.mode == Mode::Off {
                let s2 = ControllerState { demand: Demand::Satisfied, ..stopped(s1, now) };
                lemma_finalized_valid(action_set(s2, fan_idle_action(s2.fan_mode), now), pa, po, None, now, c);
            } else {
                match s1.control_temperature {
                    Some(ct) => {
                        if now <= ct.valid_until_ms {
                            lemma_decision(s1, ct.value, pa, po, now, c);
                        }
                    },
                    None => {},
                }
            }
        }
    }
}

/// Every step, from any state, for any event, time and configuration, yields
/// a state that satisfies every hard invariant (no W+Y, nothing energized
/// while unarmed or faulted, no W or Y in mode OFF) and in which W is only
/// called while heating and Y only while cooling.
pub proof fn law_step_is_safe(s: ControllerState, e: Event, now: u64, c: ControllerConfig)
    ensures
        state_is_safe(step_of(s, e, now, c).state),
        outputs_follow_action(step_of(s, e, now, c).state),
        step_of(s, e, now, c).next_outputs == step_of(s, e, now, c).state.outputs,
        step_of(s, e, now, c).next_action == step_of(s, e, now, c).state.action,
{
    lemma_step(s, e, now, c);
}

/// Family reversals are break-before-make: from a state whose outputs follow
/// its action (every state a step yields), no step goes from W straight to Y
/// or from Y straight to W.
pub proof fn law_break_before_make(s: ControllerState, e: Event, now: u64, c: ControllerConfig)
    requires
        outputs_follow_action(s),
    ensures
        !(step_of(s, e, now, c).previous_outputs.w && step_of(s, e, now, c).next_outputs.y),
        !(step_of(s, e, now, c).previous_outputs.y && step_of(s, e, now, c).next_outputs.w),
{
    lemma_step(s, e, now, c);
}

/// A step that starts cooling respects the cooling startup lockout since
/// boot, the cooling minimum off time since the last cooling stop, and the
/// changeover delay since heating last stopped.
pub proof fn law_cooling_start_respects_lockouts(s: ControllerState, e: Event, now: u64, c: ControllerConfig)
    ensures
        step_of(s, e, now, c).next_action == EquipmentAction::Cool && s.action != EquipmentAction::Cool
            ==> {
            &&& s.action != EquipmentAction::Heat
            &&& now >= s.booted_at_ms.saturating_add(c.timing.cooling_startup_lockout_ms)
            &&& s.last_cool_stopped_at_ms matches Some(t0)
                ==> now >= t0.saturating_add(c.timing.cooling_min_off_ms)
            &&& s.last_family_stopped matches Some((EquipmentFamily::Heat, t0))
                ==> now >= t0.saturating_add(c.timing.changeover_ms)
        },
{
    lemma_step(s, e, now, c);
    let s1 = event_applied(ControllerState { last_evaluated_at_ms: now, ..s }, e, now);
    lemma_gate_open(
        s1,
        now,
        c.timing.cooling_startup_lockout_ms,
        s1.last_cool_stopped_at_ms,
        c.timing.cooling_min_off_ms,
        BlockReason::MinCoolOff,
        EquipmentFamily::Cool,
        c.timing.changeover_ms,
    );
}

/// A step that starts heating respects the heating startup lockout since
/// boot, the heating minimum off time since the last heating stop, and the
/// changeover delay since cooling last stopped.
pub proof fn law_heating_start_respects_lockouts(s: ControllerState, e: Event, now: u64, c: ControllerConfig)
    ensures
        step_of(s, e, now, c).next_action == EquipmentAction::Heat && s.action != EquipmentAction::Heat
            ==> {
            &&& s.action != EquipmentAction::Cool
            &&& now >= s.booted_at_ms.saturating_add(c.timing.heating_startup_lockout_ms)
            &&& s.last_heat_stopped_at_ms matches Some(t0)
                ==> now >= t0.saturating_add(c.timing.heating_min_off_ms)
            &&& s.last_family_stopped matches Some((EquipmentFamily::Cool, t0))
                ==> now >= t0.saturating_add(c.timing.changeover_ms)
        },
{
    lemma_step(s, e, now, c);
    let s1 = event_applied(ControllerState { last_evaluated_at_ms: now, ..s }, e, now);
    lemma_gate_open(
        s1,
        now,
        c.timing.heating_startup_lockout_ms,
        s1.last_heat_stopped_at_ms,
        c.timing.heating_min_off_ms,
        BlockReason::MinHeatOff,
        EquipmentFamily::Heat,
        c.timing.changeover_ms,
    );
}

/// A timestamp older than the last evaluation latches a non-monotonic-time
/// fault: every contact is released, a running cycle is recorded as stopped
/// at the last good timestamp, no wake-up is scheduled, and the last
/// evaluation time is kept.
pub proof fn law_backwards_time_fails_safe(s: ControllerState, e: Event, now: u64, c: ControllerConfig)
    requires
        now < s.last_evaluated_at_ms,
    ensures
        ({
            let t = step_of(s, e, now, c);
            &&& t.next_outputs.all_off()
            &&& t.next_action == EquipmentAction::Idle
            &&& t.block_reason == BlockReason::NonMonotonicTime
            &&& t.state.critical_fault == Some(CriticalFault::NonMonotonicTime)
            &&& t.state.phase == Phase::FaultSafe
            &&& t.next_deadline_ms is None
            &&& t.state.last_evaluated_at_ms == s.last_evaluated_at_ms
            &&& s.action == EquipmentAction::Heat ==> t.state.last_heat_stopped_at_ms == Some(s.last_evaluated_at_ms)
            &&& s.action == EquipmentAction::Cool ==> t.state.last_cool_stopped_at_ms == Some(s.last_evaluated_at_ms)
        }),
{
}

/// The last evaluation time never moves backwards: it becomes `now` when
/// `now` is not older, and is kept otherwise.
pub proof fn law_evaluation_time_is_monotonic(s: ControllerState, e: Event, now: u64, c: ControllerConfig)
    ensures
        step_of(s, e, now, c).state.last_evaluated_at_ms == if now < s.last_evaluated_at_ms {
            s.last_evaluated_at_ms
        } else {
            now
        },
        step_of(s, e, now, c).state.booted_at_ms == s.booted_at_ms,
{
    lemma_step(s, e, now, c);
}

/// Explicit user OFF has authority over minimum run times: a step that
/// leaves the mode OFF releases W and Y and records the stop of a running
/// cycle at `now`.
pub proof fn law_user_off_stops_conditioning(s: ControllerState, e: Event, now: u64, c: ControllerConfig)
    requires
        now >= s.last_evaluated_at_ms,
        step_of(s, e, now, c).state.mode == Mode::Off,
    ensures
        !step_of(s, e, now, c).next_outputs.w,
        !step_of(s, e, now, c).next_outputs.y,
        s.action == EquipmentAction::Heat ==> step_of(s, e, now, c).state.last_heat_stopped_at_ms == Some(now),
        s.action == EquipmentAction::Cool ==> step_of(s, e, now, c).state.last_cool_stopped_at_ms == Some(now),
{
    lemma_step(s, e, now, c);
}

/// An invalid configuration fails closed, even from a running state.
pub proof fn law_invalid_config_fails_closed(s: ControllerState, e: Event, now: u64, c: ControllerConfig)
    requires
        now >= s.last_evaluated_at_ms,
        !config_is_valid(c),
    ensures
        step_of(s, e, now, c).next_outputs.all_off(),
        step_of(s, e, now, c).block_reason == BlockReason::ConfigInvalid,
        step_of(s, e, now, c).state.phase == Phase::FaultSafe,
{
}

/// A critical fault latches: while one is present, only an explicit clear
/// removes it, and every step until then releases every contact.
pub proof fn law_critical_fault_latches(s: ControllerState, e: Event, now: u64, c: ControllerConfig)
    requires
        s.critical_fault is Some,
        e != Event::ClearCriticalFault,
    ensures
        step_of(s, e, now, c).state.critical_fault is Some,
        step_of(s, e, now, c).next_outputs.all_off(),
{
    lemma_step(s, e, now, c);
}

/// A step that leaves the actuator unarmed (time monotonic, configuration
/// valid, no fault) releases every contact and returns to the boot-safe
/// phase.
pub proof fn law_unarmed_is_boot_safe(s: ControllerState, e: Event, now: u64, c: ControllerConfig)
    requires
        now >= s.last_evaluated_at_ms,
        config_is_valid(c),
        step_of(s, e, now, c).state.critical_fault is None,
        !step_of(s, e, now, c).state.actuator_armed,
    ensures
        step_of(s, e, now, c).next_outputs.all_off(),
        step_of(s, e, now, c).block_reason == BlockReason::ActuatorNotArmed,
        step_of(s, e, now, c).state.phase == Phase::BootSafe,
{
    lemma_step(s, e, now, c);
    let s1 = event_applied(ControllerState { last_evaluated_at_ms: now, ..s }, e, now);
    assert(step_of(s, e, now, c) == safe_transition_of(
        s1,
        BlockReason::ActuatorNotArmed,
        Some(Phase::BootSafe),
        s.action,
        s.outputs,
        now,
    ));
}

/// Without a valid control temperature (absent, or expired before `now`), an
/// armed, fault-free controller outside mode OFF releases every contact,
/// reports the sensor, and records the stop of a running cycle at `now`. This
/// outranks any minimum-run preference.
pub proof fn law_stale_sensor_fails_safe(s: ControllerState, e: Event, now: u64, c: ControllerConfig)
    requires
        now >= s.last_evaluated_at_ms,
        config_is_valid(c),
        step_of(s, e, now, c).state.critical_fault is None,
        step_of(s, e, now, c).state.actuator_armed,
        step_of(s, e, now, c).state.mode != Mode::Off,
        match step_of(s, e, now, c).state.control_temperature {
            Some(ct) => now > ct.valid_until_ms,
            None => true,
        },
    ensures
        step_of(s, e, now, c).next_outputs.all_off(),
        step_of(s, e, now, c).block_reason == BlockReason::SensorInvalid,
        step_of(s, e, now, c).state.phase == Phase::FaultSafe,
        s.action == EquipmentAction::Heat ==> step_of(s, e, now, c).state.last_heat_stopped_at_ms == Some(now),
        s.action == EquipmentAction::Cool ==> step_of(s, e, now, c).state.last_cool_stopped_at_ms == Some(now),
{
    lemma_step(s, e, now, c);
    let s1 = event_applied(ControllerState { last_evaluated_at_ms: now, ..s }, e, now);
    assert(step_of(s, e, now, c) == safe_transition_of(
        stopped(s1, now),
        BlockReason::SensorInvalid,
        None,
        s.action,
        s.outputs,
        now,
    ));
}

/// Shared proof of the two minimum-run laws.
proof fn lemma_running_cycle(s: ControllerState, e: Event, now: u64, c: ControllerConfig)
    requires
        s.action == EquipmentAction::Heat ==> (s.current_action_started_at_ms matches Some(t0)
            && now < t0.saturating_add(c.timing.heating_min_run_ms)),
        s.action == EquipmentAction::Cool ==> (s.current_action_started_at_ms matches Some(t0)
            && now < t0.saturating_add(c.timing.cooling_min_run_ms)),
        is_conditioning(s.action),
    ensures
        ({
            let t = step_of(s, e, now, c);
            let n = t.state;
            t.next_action != s.action ==> {
                ||| is_safety_stop(t.block_reason)
                ||| n.mode == Mode::Off
                ||| (s.action == EquipmentAction::Heat && (n.mode == Mode::Cool || n.demand == Demand::Cool))
                ||| (s.action == EquipmentAction::Cool && (n.mode == Mode::Heat || n.demand == Demand::Heat))
            }
        }),
{
    lemma_step(s, e, now, c);
    if now >= s.last_evaluated_at_ms {
        let s1 = event_applied(ControllerState { last_evaluated_at_ms: now, ..s }, e, now);
        if config_is_valid(c) && s1.critical_fault is None && s1.actuator_armed && s1.mode != Mode::Off {
            match s1.control_temperature {
                Some(ct) => {
                    if now <= ct.valid_until_ms {
                        lemma_decision(s1, ct.value, s.action, s.outputs, now, c);
                        let d = demand_for(s1, ct.value, c);
                        if s.action == EquipmentAction::Heat && s1.mode != Mode::Cool && d != Demand::Cool {
                            lemma_decision_holds_running_cycle(s1, ct.value, s.outputs, now, c);
                        }
                        if s.action == EquipmentAction::Cool && s1.mode != Mode::Heat && d != Demand::Heat {
                            lemma_decision_holds_running_cycle(s1, ct.value, s.outputs, now, c);
                        }
                    }
                },
                None => {},
            }
        }
    }
}

/// A heating cycle inside its minimum run time only ends through a safety
/// stop, a mode that no longer allows heating, or an actual cooling demand;
/// a satisfied heat demand keeps it running.
pub proof fn law_heating_minimum_run_is_honoured(s: ControllerState, e: Event, now: u64, c: ControllerConfig)
    requires
        s.action == EquipmentAction::Heat,
        s.current_action_started_at_ms matches Some(t0) && now < t0.saturating_add(c.timing.heating_min_run_ms),
    ensures
        step_of(s, e, now, c).next_action != EquipmentAction::Heat ==> {
            let n = step_of(s, e, now, c).state;
            ||| is_safety_stop(step_of(s, e, now, c).block_reason)
            ||| n.mode == Mode::Off
            ||| n.mode == Mode::Cool
            ||| n.demand == Demand::Cool
        },
{
    lemma_running_cycle(s, e, now, c);
}

/// A cooling cycle inside its minimum run time only ends through a safety
/// stop, a mode that no longer allows cooling, or an actual heating demand;
/// a satisfied cool demand keeps it running.
pub proof fn law_cooling_minimum_run_is_honoured(s: ControllerState, e: Event, now: u64, c: ControllerConfig)
    requires
        s.action == EquipmentAction::Cool,
        s.current_action_started_at_ms matches Some(t0) && now < t0.saturating_add(c.timing.cooling_min_run_ms),
    ensures
        step_of(s, e, now, c).next_action != EquipmentAction::Cool ==> {
            let n = step_of(s, e, now, c).state;
            ||| is_safety_stop(step_of(s, e, now, c).block_reason)
            ||| n.mode == Mode::Off
            ||| n.mode == Mode::Heat
            ||| n.demand == Demand::Heat
        },
{
    lemma_running_cycle(s, e, now, c);
}

/// Every scheduled wake-up lies strictly in the future, so no already-due
/// timer can spin an event loop (except at the very last representable
/// millisecond, where nothing later exists).
pub proof fn law_deadline_is_in_the_future(s: ControllerState, e: Event, now: u64, c: ControllerConfig)
    ensures
        step_of(s, e, now, c).next_deadline_ms matches Some(d) ==> d > now || now == u64::MAX,
{
    if now >= s.last_evaluated_at_ms {
        let s1 = event_applied(ControllerState { last_evaluated_at_ms: now, ..s }, e, now);
        if config_is_valid(c) && s1.critical_fault is None && s1.actuator_armed && s1.mode != Mode::Off {
            match s1.control_temperature {
                Some(ct) => {
                    if now <= ct.valid_until_ms {
                        lemma_step_decision_path(s, e, now, c);
                        lemma_decision_deadline(s1, ct.value, s.outputs, now, c);
                    }
                },
                None => {},
            }
        }
    }
}

/// The wake-up of an armed, fault-free controller with a valid sensor is the
/// earliest of its pending constraint and the sensor expiry. It never lies
/// after the sensor expiry. A blocked start wakes at its start gate deadline
/// (the longest of lockout, minimum off and changeover) or at the sensor
/// expiry, if sooner, and shows the block reason of that gate. A running
/// cycle kept on by its minimum run wakes when that minimum run ends or at
/// the sensor expiry, if sooner.
pub proof fn law_deadline_is_earliest_constraint(s: ControllerState, e: Event, now: u64, c: ControllerConfig)
    requires
        now >= s.last_evaluated_at_ms,
        config_is_valid(c),
        step_of(s, e, now, c).state.critical_fault is None,
        step_of(s, e, now, c).state.actuator_armed,
        step_of(s, e, now, c).state.mode != Mode::Off,
        step_of(s, e, now, c).state.control_temperature matches Some(ct) && now <= ct.valid_until_ms,
    ensures
        ({
            let t = step_of(s, e, now, c);
            let sd = sensor_deadline(t.state);
            &&& sd matches Some(x) ==> (t.next_deadline_ms matches Some(y) && y <= x)
            &&& (!is_conditioning(s.action) && !is_conditioning(t.next_action) && t.state.demand == Demand::Heat)
                ==> t.next_deadline_ms == earliest(sd, heat_gate(s, now, c).0)
                    && t.block_reason == heat_gate(s, now, c).1
            &&& (!is_conditioning(s.action) && !is_conditioning(t.next_action) && t.state.demand == Demand::Cool)
                ==> t.next_deadline_ms == earliest(sd, cool_gate(s, now, c).0)
                    && t.block_reason == cool_gate(s, now, c).1
            &&& (s.action == EquipmentAction::Heat && t.next_action == EquipmentAction::Heat)
                ==> t.next_deadline_ms == earliest(
                    if t.state.demand == Demand::Heat {
                        None
                    } else {
                        deadline_since(s.current_action_started_at_ms, c.timing.heating_min_run_ms, now)
                    },
                    sd,
                )
            &&& (s.action == EquipmentAction::Cool && t.next_action == EquipmentAction::Cool)
                ==> t.next_deadline_ms == earliest(
                    if t.state.demand == Demand::Cool {
                        None
                    } else {
                        deadline_since(s.current_action_started_at_ms, c.timing.cooling_min_run_ms, now)
                    },
                    sd,
                )
        }),
{
    let s1 = event_applied(ControllerState { last_evaluated_at_ms: now, ..s }, e, now);
    lemma_step_frames(s, e, now, c);
    let ct = s1.control_temperature.unwrap();
    lemma_step_decision_path(s, e, now, c);
    lemma_decision(s1, ct.value, s.action, s.outputs, now, c);
    lemma_decision_deadline(s1, ct.value, s.outputs, now, c);
    assert(heat_gate(s1, now, c) == heat_gate(s, now, c));
    assert(cool_gate(s1, now, c) == cool_gate(s, now, c));
}

/// The boot state satisfies every hard invariant, and its outputs follow
/// its action.
pub proof fn lemma_boot_state_is_safe(booted_at_ms: u64)
    ensures
        state_is_safe(boot_state(booted_at_ms)),
        outputs_follow_action(boot_state(booted_at_ms)),
        boot_state(booted_at_ms).outputs.all_off(),
{
}

} // verus!
