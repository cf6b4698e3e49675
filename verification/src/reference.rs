//! An independent, timer-free reference model of the thermostat, and the
//! proof that the controller agrees with it whenever every equipment timer is
//! zero.
use vstd::prelude::*;

use crate::config::{ComfortConfig, ControllerConfig, EquipmentProfile, config_is_valid};
use crate::model::{Event, conditioning_decision, event_applied, step_of};
use crate::state::{ControllerState, boot_state};
use crate::temperature::MilliCelsius;
use crate::types::{Demand, EquipmentAction, FanMode, Mode, OutputVector};

verus! {

/// A user or sensor command of the reference model.
#[derive(Clone, Copy, Debug, PartialEq, Eq, Structural)]
pub enum Command {
    Mode(Mode),
    Fan(FanMode),
    Temperature(MilliCelsius),
    Tick,
}

/// State of the reference model: intent, last temperature, demand, action.
#[derive(Clone, Copy, Debug, PartialEq, Eq, Structural)]
pub struct ReferenceModel {
    pub mode: Mode,
    pub fan_mode: FanMode,
    pub temperature: MilliCelsius,
    pub demand: Demand,
    pub action: EquipmentAction,
}

pub open spec fn reference_idle(fan_mode: FanMode) -> EquipmentAction {
    if fan_mode == FanMode::On { EquipmentAction::FanOnly } else { EquipmentAction::Idle }
}

pub open spec fn reference_running(action: EquipmentAction) -> bool {
    action == EquipmentAction::Heat || action == EquipmentAction::Cool
}

pub open spec fn reference_allows(mode: Mode, action: EquipmentAction) -> bool {
    ||| !reference_running(action)
    ||| (action == EquipmentAction::Heat && (mode == Mode::Heat || mode == Mode::Auto))
    ||| (action == EquipmentAction::Cool && (mode == Mode::Cool || mode == Mode::Auto))
}

pub open spec fn reference_opposite(action: EquipmentAction, demand: Demand) -> bool {
    ||| (action == EquipmentAction::Heat && demand == Demand::Cool)
    ||| (action == EquipmentAction::Cool && demand == Demand::Heat)
}

/// Demand of the reference model: start thresholds from rest, stop
/// thresholds while running, reversal at the opposite start threshold in
/// AUTO.
pub open spec fn reference_demand(mode: Mode, action: EquipmentAction, t: int, k: ComfortConfig) -> Demand {
    let wants_heat_from_rest = t <= k.heat_on@;
    let wants_cool_from_rest = t >= k.cool_on@;
    if mode == Mode::Off {
        Demand::Satisfied
    } else if mode == Mode::Heat {
        if (action == EquipmentAction::Heat && t < k.heat_off@)
            || (action != EquipmentAction::Heat && wants_heat_from_rest) {
            Demand::Heat
        } else {
            Demand::Satisfied
        }
    } else if mode == Mode::Cool {
        if (action == EquipmentAction::Cool && t > k.cool_off@)
            || (action != EquipmentAction::Cool && wants_cool_from_rest) {
            Demand::Cool
        } else {
            Demand::Satisfied
        }
    } else if action == EquipmentAction::Heat {
        if wants_cool_from_rest {
            Demand::Cool
        } else if t < k.heat_off@ {
            Demand::Heat
        } else {
            Demand::Satisfied
        }
    } else if action == EquipmentAction::Cool {
        if wants_heat_from_rest {
            Demand::Heat
        } else if t > k.cool_off@ {
            Demand::Cool
        } else {
            Demand::Satisfied
        }
    } else if wants_heat_from_rest {
        Demand::Heat
    } else if wants_cool_from_rest {
        Demand::Cool
    } else {
        Demand::Satisfied
    }
}

/// One command of the reference model: OFF idles at once; otherwise a running
/// family that is no longer allowed, satisfied or reversed is dropped, a
/// reversal spends one evaluation at rest, and from rest the demand decides.
pub open spec fn reference_apply(r: ReferenceModel, command: Command, k: ComfortConfig) -> ReferenceModel {
    let r1 = match command {
        Command::Mode(mode) => ReferenceModel { mode, ..r },
        Command::Fan(fan_mode) => ReferenceModel { fan_mode, ..r },
        Command::Temperature(temperature) => ReferenceModel { temperature, ..r },
        Command::Tick => r,
    };
    if r1.mode == Mode::Off {
        ReferenceModel { demand: Demand::Satisfied, action: reference_idle(r1.fan_mode), ..r1 }
    } else {
        let demand = reference_demand(r1.mode, r1.action, r1.temperature@, k);
        let prior = r1.action;
        let drop = !reference_allows(r1.mode, prior) || reference_opposite(prior, demand)
            || (reference_running(prior) && demand == Demand::Satisfied);
        let action = if drop { reference_idle(r1.fan_mode) } else { prior };
        let action = if reference_opposite(prior, demand) {
            action
        } else if !reference_running(action) {
            if demand == Demand::Heat {
                EquipmentAction::Heat
            } else if demand == Demand::Cool {
                EquipmentAction::Cool
            } else {
                reference_idle(r1.fan_mode)
            }
        } else {
            action
        };
        ReferenceModel { demand, action, ..r1 }
    }
}

/// Contacts of the reference model for the conventional furnace + A/C
/// installation: W for heat (plus G with the fan on), Y+G for cool, G alone
/// for the fan, nothing at rest.
pub open spec fn reference_outputs(r: ReferenceModel) -> OutputVector {
    if r.action == EquipmentAction::Heat {
        OutputVector { w: true, y: false, g: r.fan_mode == FanMode::On }
    } else if r.action == EquipmentAction::Cool {
        OutputVector { w: false, y: true, g: true }
    } else if r.action == EquipmentAction::FanOnly {
        OutputVector { w: false, y: false, g: true }
    } else {
        OutputVector { w: false, y: false, g: false }
    }
}

/// The controller event that carries a command; temperatures stay valid for
/// `valid_for_ms`.
pub open spec fn command_event(command: Command, valid_for_ms: u64) -> Event {
    match command {
        Command::Mode(mode) => Event::SetMode(mode),
        Command::Fan(fan_mode) => Event::SetFanMode(fan_mode),
        Command::Temperature(value) => Event::SetControlTemperature { value, valid_for_ms },
        Command::Tick => Event::Tick,
    }
}

/// A valid configuration with every equipment timer zero and the Goodman
/// furnace + A/C profile.
pub open spec fn zero_timer_goodman(c: ControllerConfig) -> bool {
    &&& config_is_valid(c)
    &&& c.timing.cooling_startup_lockout_ms == 0
    &&& c.timing.cooling_min_off_ms == 0
    &&& c.timing.cooling_min_run_ms == 0
    &&& c.timing.heating_startup_lockout_ms == 0
    &&& c.timing.heating_min_off_ms == 0
    &&& c.timing.heating_min_run_ms == 0
    &&& c.timing.changeover_ms == 0
    &&& c.equipment == (EquipmentProfile {
        idle: OutputVector { w: false, y: false, g: false },
        heat: OutputVector { w: true, y: false, g: false },
        cool: OutputVector { w: false, y: true, g: true },
        fan_only: OutputVector { w: false, y: false, g: true },
        allow_continuous_fan_with_heat: true,
    })
}

/// The controller state that stands for a reference state: armed,
/// fault-free, same intent, action and temperature.
pub open spec fn corresponds(s: ControllerState, r: ReferenceModel) -> bool {
    &&& s.actuator_armed
    &&& s.critical_fault is None
    &&& s.mode == r.mode
    &&& s.fan_mode == r.fan_mode
    &&& s.action == r.action
    &&& s.control_temperature matches Some(ct) && ct.value == r.temperature
}

/// No recorded instant of the state lies after `now`.
pub open spec fn history_not_after(s: ControllerState, now: u64) -> bool {
    &&& s.booted_at_ms <= now
    &&& s.last_evaluated_at_ms <= now
    &&& s.current_action_started_at_ms matches Some(x) ==> x <= now
    &&& s.last_heat_stopped_at_ms matches Some(x) ==> x <= now
    &&& s.last_cool_stopped_at_ms matches Some(x) ==> x <= now
    &&& s.last_family_stopped matches Some((_, x)) ==> x <= now
}

#[verifier::rlimit(60)]
proof fn lemma_decision_matches_reference(s: ControllerState, r: ReferenceModel, now: u64, c: ControllerConfig)
    requires
        zero_timer_goodman(c),
        corresponds(s, r),
        history_not_after(s, now),
        s.mode != Mode::Off,
    ensures
        ({
            let t = conditioning_decision(s, r.temperature, s.action, s.outputs, now, c);
            let r2 = reference_apply(r, Command::Tick, c.comfort);
            &&& t.next_action == r2.action
            &&& t.state.action == r2.action
            &&& t.state.demand == r2.demand
            &&& t.next_outputs == reference_outputs(r2)
            &&& t.state.mode == s.mode
            &&& t.state.fan_mode == s.fan_mode
            &&& t.state.actuator_armed
            &&& t.state.critical_fault is None
            &&& t.state.control_temperature == s.control_temperature
            &&& t.state.last_evaluated_at_ms == s.last_evaluated_at_ms
            &&& history_not_after(t.state, now)
        }),
{
    reveal(conditioning_decision);
}

/// One command step of the controller agrees with the reference model when
/// every timer is zero: same next action, same demand, same contacts, and the
/// states still correspond afterwards.
pub proof fn law_step_matches_reference(
    s: ControllerState,
    r: ReferenceModel,
    command: Command,
    valid_for_ms: u64,
    now: u64,
    c: ControllerConfig,
)
    requires
        zero_timer_goodman(c),
        corresponds(s, r),
        history_not_after(s, now),
        !(command is Temperature) ==> s.control_temperature.unwrap().valid_until_ms >= now,
    ensures
        ({
            let t = step_of(s, command_event(command, valid_for_ms), now, c);
            let r2 = reference_apply(r, command, c.comfort);
            &&& t.next_action == r2.action
            &&& t.state.demand == r2.demand
            &&& t.next_outputs == reference_outputs(r2)
            &&& corresponds(t.state, r2)
            &&& history_not_after(t.state, now)
            &&& t.state.last_evaluated_at_ms == now
            &&& t.state.control_temperature.unwrap().valid_until_ms == if command is Temperature {
                now.saturating_add(valid_for_ms)
            } else {
                s.control_temperature.unwrap().valid_until_ms
            }
        }),
{
    let e = command_event(command, valid_for_ms);
    let s1 = event_applied(ControllerState { last_evaluated_at_ms: now, ..s }, e, now);
    let r1 = match command {
        Command::Mode(mode) => ReferenceModel { mode, ..r },
        Command::Fan(fan_mode) => ReferenceModel { fan_mode, ..r },
        Command::Temperature(temperature) => ReferenceModel { temperature, ..r },
        Command::Tick => r,
    };
    assert(corresponds(s1, r1));
    assert(reference_apply(r, command, c.comfort) == reference_apply(r1, Command::Tick, c.comfort));
    assert(s1.control_temperature.unwrap().valid_until_ms >= now);
    if s1.mode != Mode::Off {
        lemma_decision_matches_reference(s1, r1, now, c);
        assert(step_of(s, e, now, c) == conditioning_decision(s1, r1.temperature, s.action, s.outputs, now, c));
    }
}

/// The controller state after the commands, the `i`-th (from one) applied at
/// `now0 + i`.
pub open spec fn controller_after(
    s: ControllerState,
    commands: Seq<Command>,
    valid_for_ms: u64,
    now0: u64,
    c: ControllerConfig,
) -> ControllerState
    decreases commands.len(),
{
    if commands.len() == 0 {
        s
    } else {
        step_of(
            controller_after(s, commands.drop_last(), valid_for_ms, now0, c),
            command_event(commands.last(), valid_for_ms),
            (now0 + commands.len()) as u64,
            c,
        ).state
    }
}

/// The reference state after the commands.
pub open spec fn reference_after(r: ReferenceModel, commands: Seq<Command>, k: ComfortConfig) -> ReferenceModel
    decreases commands.len(),
{
    if commands.len() == 0 {
        r
    } else {
        reference_apply(reference_after(r, commands.drop_last(), k), commands.last(), k)
    }
}

/// The `i`-th command (from zero) gives the same action, demand and contacts
/// in the controller as in the reference model.
pub open spec fn agrees_at(
    s: ControllerState,
    r: ReferenceModel,
    commands: Seq<Command>,
    valid_for_ms: u64,
    now0: u64,
    c: ControllerConfig,
    i: int,
) -> bool {
    let si = controller_after(s, commands.take(i), valid_for_ms, now0, c);
    let ri = reference_after(r, commands.take(i), c.comfort);
    let t = step_of(si, command_event(commands[i], valid_for_ms), (now0 + i + 1) as u64, c);
    let r2 = reference_apply(ri, commands[i], c.comfort);
    &&& t.next_action == r2.action
    &&& t.state.demand == r2.demand
    &&& t.next_outputs == reference_outputs(r2)
}

proof fn lemma_trace_invariant(
    s: ControllerState,
    r: ReferenceModel,
    commands: Seq<Command>,
    valid_for_ms: u64,
    now0: u64,
    c: ControllerConfig,
    n: int,
)
    requires
        zero_timer_goodman(c),
        corresponds(s, r),
        history_not_after(s, now0),
        s.control_temperature.unwrap().valid_until_ms >= now0 + commands.len(),
        valid_for_ms >= commands.len(),
        now0 + commands.len() <= u64::MAX,
        0 <= n <= commands.len(),
    ensures
        ({
            let sn = controller_after(s, commands.take(n), valid_for_ms, now0, c);
            let rn = reference_after(r, commands.take(n), c.comfort);
            &&& corresponds(sn, rn)
            &&& history_not_after(sn, (now0 + n) as u64)
            &&& sn.control_temperature.unwrap().valid_until_ms >= now0 + commands.len()
        }),
    decreases n,
{
    if n == 0 {
        assert(commands.take(0) =~= Seq::<Command>::empty());
    } else {
        lemma_trace_invariant(s, r, commands, valid_for_ms, now0, c, n - 1);
        assert(commands.take(n).drop_last() =~= commands.take(n - 1));
        assert(commands.take(n).last() == commands[n - 1]);
        let prev = controller_after(s, commands.take(n - 1), valid_for_ms, now0, c);
        let rprev = reference_after(r, commands.take(n - 1), c.comfort);
        law_step_matches_reference(prev, rprev, commands[n - 1], valid_for_ms, (now0 + n) as u64, c);
    }
}

/// The controller agrees with the independent reference model on every
/// command of a trace when every timer is zero: starting from corresponding
/// states, with the `i`-th command applied one millisecond after the previous
/// one and temperatures that stay valid for the whole trace, every step has
/// the reference's action, demand and contacts.
pub proof fn law_trace_matches_reference(
    s: ControllerState,
    r: ReferenceModel,
    commands: Seq<Command>,
    valid_for_ms: u64,
    now0: u64,
    c: ControllerConfig,
)
    requires
        zero_timer_goodman(c),
        corresponds(s, r),
        history_not_after(s, now0),
        s.control_temperature.unwrap().valid_until_ms >= now0 + commands.len(),
        valid_for_ms >= commands.len(),
        now0 + commands.len() <= u64::MAX,
    ensures
        forall|i: int| 0 <= i < commands.len() ==> #[trigger] agrees_at(s, r, commands, valid_for_ms, now0, c, i),
{
    assert forall|i: int| 0 <= i < commands.len() implies #[trigger] agrees_at(s, r, commands, valid_for_ms, now0, c, i) by {
        lemma_trace_invariant(s, r, commands, valid_for_ms, now0, c, i);
        let si = controller_after(s, commands.take(i), valid_for_ms, now0, c);
        let ri = reference_after(r, commands.take(i), c.comfort);
        law_step_matches_reference(si, ri, commands[i], valid_for_ms, (now0 + i + 1) as u64, c);
    }
}

/// Booting at 0, receiving a temperature valid for `valid_for_ms` and arming,
/// all at time 0, leaves the controller corresponding to the reference model
/// at rest in mode OFF with fan AUTO.
pub proof fn law_armed_boot_corresponds(temperature: MilliCelsius, valid_for_ms: u64, c: ControllerConfig)
    requires
        config_is_valid(c),
    ensures
        ({
            let s0 = step_of(
                boot_state(0),
                Event::SetControlTemperature { value: temperature, valid_for_ms },
                0,
                c,
            ).state;
            let s = step_of(s0, Event::SetActuatorArmed(true), 0, c).state;
            &&& corresponds(s, ReferenceModel {
                mode: Mode::Off,
                fan_mode: FanMode::Auto,
                temperature,
                demand: Demand::Satisfied,
                action: EquipmentAction::Idle,
            })
            &&& history_not_after(s, 0)
            &&& s.control_temperature.unwrap().valid_until_ms == valid_for_ms
        }),
{
}

} // verus!
