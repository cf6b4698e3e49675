use vstd::prelude::*;

use crate::temperature::MilliCelsius;
use crate::types::{EquipmentAction, OutputVector};

verus! {

/// Hysteresis thresholds of the comfort controller.
#[derive(Clone, Copy, Debug, PartialEq, Eq, Structural)]
pub struct ComfortConfig {
    /// Start heating at or below this temperature.
    pub heat_on: MilliCelsius,
    /// Stop heating at or above this temperature.
    pub heat_off: MilliCelsius,
    /// Stop cooling at or below this temperature.
    pub cool_off: MilliCelsius,
    /// Start cooling at or above this temperature.
    pub cool_on: MilliCelsius,
}

/// Equipment-protection timers, in milliseconds.
#[derive(Clone, Copy, Debug, PartialEq, Eq, Structural)]
pub struct TimingConfig {
    pub cooling_startup_lockout_ms: u64,
    pub cooling_min_off_ms: u64,
    pub cooling_min_run_ms: u64,
    pub heating_startup_lockout_ms: u64,
    pub heating_min_off_ms: u64,
    pub heating_min_run_ms: u64,
    pub changeover_ms: u64,
}

/// Mapping from equipment actions to thermostat contact vectors.
#[derive(Clone, Copy, Debug, PartialEq, Eq, Structural)]
pub struct EquipmentProfile {
    pub idle: OutputVector,
    pub heat: OutputVector,
    pub cool: OutputVector,
    pub fan_only: OutputVector,
    /// Whether a user `FanMode::On` may add a G call while heating.
    pub allow_continuous_fan_with_heat: bool,
}

impl EquipmentProfile {
    /// Contact vector that this profile assigns to an action.
    pub open spec fn spec_outputs_for(self, action: EquipmentAction) -> OutputVector {
        match action {
            EquipmentAction::Idle => self.idle,
            EquipmentAction::Heat => self.heat,
            EquipmentAction::Cool => self.cool,
            EquipmentAction::FanOnly => self.fan_only,
        }
    }

    /// Draft profile for the installed Goodman GMSS960804CNAA conventional
    /// gas-furnace + split-A/C installation: W alone for heat, Y+G for cool,
    /// G alone for the fan, and a continuous fan allowed during heat.
    pub fn goodman_gmss960804cnaa() -> (p: EquipmentProfile)
        ensures
            p.idle == OutputVector::spec_off(),
            p.heat == (OutputVector { w: true, y: false, g: false }),
            p.cool == (OutputVector { w: false, y: true, g: true }),
            p.fan_only == (OutputVector { w: false, y: false, g: true }),
            p.allow_continuous_fan_with_heat,
    {
        EquipmentProfile {
            idle: OutputVector::off(),
            heat: OutputVector { w: true, y: false, g: false },
            cool: OutputVector { w: false, y: true, g: true },
            fan_only: OutputVector { w: false, y: false, g: true },
            allow_continuous_fan_with_heat: true,
        }
    }

    pub fn outputs_for(self, action: EquipmentAction) -> (r: OutputVector)
        ensures
            r == self.spec_outputs_for(action),
    {
        match action {
            EquipmentAction::Idle => self.idle,
            EquipmentAction::Heat => self.heat,
            EquipmentAction::Cool => self.cool,
            EquipmentAction::FanOnly => self.fan_only,
        }
    }
}

/// Complete controller configuration.
#[derive(Clone, Copy, Debug, PartialEq, Eq, Structural)]
pub struct ControllerConfig {
    pub comfort: ComfortConfig,
    pub timing: TimingConfig,
    pub equipment: EquipmentProfile,
}

#[derive(Clone, Copy, Debug, PartialEq, Eq, Structural)]
pub enum ConfigError {
    HeatHysteresisInvalid,
    CoolHysteresisInvalid,
    AutoBandOverlap,
    IdleMustBeOff,
    HeatMappingInvalid,
    CoolMappingInvalid,
    FanMappingInvalid,
    HeatCoolConflict,
}

/// The first relationship of `c` that is violated, checked in the order:
/// heat hysteresis, cool hysteresis, auto band, idle mapping, heat mapping,
/// cool mapping, fan mapping, and finally heat/cool exclusion of every
/// mapped vector.
pub open spec fn config_error(c: ControllerConfig) -> Option<ConfigError> {
    let p = c.equipment;
    if c.comfort.heat_on@ >= c.comfort.heat_off@ {
        Some(ConfigError::HeatHysteresisInvalid)
    } else if c.comfort.cool_off@ >= c.comfort.cool_on@ {
        Some(ConfigError::CoolHysteresisInvalid)
    } else if c.comfort.heat_off@ >= c.comfort.cool_off@ {
        Some(ConfigError::AutoBandOverlap)
    } else if !p.idle.all_off() {
        Some(ConfigError::IdleMustBeOff)
    } else if !p.heat.w || p.heat.y {
        Some(ConfigError::HeatMappingInvalid)
    } else if !p.cool.y || p.cool.w {
        Some(ConfigError::CoolMappingInvalid)
    } else if !p.fan_only.g || p.fan_only.w || p.fan_only.y {
        Some(ConfigError::FanMappingInvalid)
    } else if p.idle.heat_cool_conflict() || p.heat.heat_cool_conflict()
        || p.cool.heat_cool_conflict() || p.fan_only.heat_cool_conflict() {
        Some(ConfigError::HeatCoolConflict)
    } else {
        None
    }
}

/// A configuration under which the controller may be armed.
pub open spec fn config_is_valid(c: ControllerConfig) -> bool {
    config_error(c) is None
}

impl ControllerConfig {
    /// Validates relationships that must hold before a controller can be armed.
    /// Returns the configuration unchanged when it is valid, else the first
    /// violated relationship (see [`config_error`]).
    pub fn validate(self) -> (r: Result<ControllerConfig, ConfigError>)
        ensures
            r == (match config_error(self) {
                Some(e) => Err(e),
                None => Ok(self),
            }),
            r is Ok ==> self.comfort.heat_on@ < self.comfort.heat_off@
                && self.comfort.heat_off@ < self.comfort.cool_off@
                && self.comfort.cool_off@ < self.comfort.cool_on@,
            self.comfort.heat_on@ >= self.comfort.heat_off@
                ==> r == Err::<ControllerConfig, ConfigError>(ConfigError::HeatHysteresisInvalid),
    {
        let heat_on = self.comfort.heat_on.as_milli_celsius();
        let heat_off = self.comfort.heat_off.as_milli_celsius();
        let cool_off = self.comfort.cool_off.as_milli_celsius();
        let cool_on = self.comfort.cool_on.as_milli_celsius();
        if heat_on >= heat_off {
            return Err(ConfigError::HeatHysteresisInvalid);
        }
        if cool_off >= cool_on {
            return Err(ConfigError::CoolHysteresisInvalid);
        }
        if heat_off >= cool_off {
            return Err(ConfigError::AutoBandOverlap);
        }
        let profile = self.equipment;
        if !profile.idle.is_all_off() {
            return Err(ConfigError::IdleMustBeOff);
        }
        if !profile.heat.w || profile.heat.y {
            return Err(ConfigError::HeatMappingInvalid);
        }
        if !profile.cool.y || profile.cool.w {
            return Err(ConfigError::CoolMappingInvalid);
        }
        if !profile.fan_only.g || profile.fan_only.w || profile.fan_only.y {
            return Err(ConfigError::FanMappingInvalid);
        }
        let outputs = [profile.idle, profile.heat, profile.cool, profile.fan_only];
        let mut i: usize = 0;
        #[verifier::loop_isolation(false)]
        while i < 4
            invariant
                0 <= i <= 4,
                outputs@ == seq![profile.idle, profile.heat, profile.cool, profile.fan_only],
                forall|j: int| 0 <= j < i ==> !(#[trigger] outputs@[j]).heat_cool_conflict(),
            decreases 4 - i,
        {
            if outputs[i].has_heat_cool_conflict() {
                return Err(ConfigError::HeatCoolConflict);
            }
            i = i + 1;
        }
        proof {
            assert(!outputs@[0].heat_cool_conflict());
            assert(!outputs@[1].heat_cool_conflict());
            assert(!outputs@[2].heat_cool_conflict());
            assert(!outputs@[3].heat_cool_conflict());
        }
        Ok(self)
    }
}

} // verus!
