use vstd::prelude::*;

verus! {

/// The HVAC operating mode requested by the user.
#[derive(Clone, Copy, Debug, Default, PartialEq, Eq, Structural, Hash)]
pub enum Mode {
    #[default]
    Off,
    Heat,
    Cool,
    Auto,
}

/// The fan mode requested by the user.
#[derive(Clone, Copy, Debug, Default, PartialEq, Eq, Structural, Hash)]
pub enum FanMode {
    #[default]
    Auto,
    On,
}

/// The comfort demand derived from temperature and hysteresis.
#[derive(Clone, Copy, Debug, Default, PartialEq, Eq, Structural, Hash)]
pub enum Demand {
    /// No conditioning is called for.
    #[default]
    Satisfied,
    Heat,
    Cool,
}

/// The equipment action selected by the controller.
#[derive(Clone, Copy, Debug, Default, PartialEq, Eq, Structural, Hash)]
pub enum EquipmentAction {
    #[default]
    Idle,
    Heat,
    Cool,
    FanOnly,
}

/// A conditioning family whose stop time matters for changeover delays.
#[derive(Clone, Copy, Debug, PartialEq, Eq, Structural, Hash)]
pub enum EquipmentFamily {
    Heat,
    Cool,
}

/// Why the controller is not (yet) doing what demand asks for.
#[derive(Clone, Copy, Debug, Default, PartialEq, Eq, Structural, Hash)]
pub enum BlockReason {
    /// Nothing blocks the selected action.
    #[default]
    Unblocked,
    StartupLockout,
    MinHeatOff,
    MinHeatRun,
    MinCoolOff,
    MinCoolRun,
    ChangeoverDelay,
    SensorInvalid,
    ActuatorNotArmed,
    ConfigInvalid,
    CriticalFault,
    NonMonotonicTime,
}

/// Logical thermostat contacts, not GPIO levels.
///
/// `true` means the corresponding thermostat call is requested.
#[derive(Clone, Copy, Debug, Default, PartialEq, Eq, Structural, Hash)]
pub struct OutputVector {
    pub w: bool,
    pub y: bool,
    pub g: bool,
}

impl OutputVector {
    /// The de-energized vector: no contact is called.
    pub fn off() -> (r: OutputVector)
        ensures
            r == Self::spec_off(),
    {
        OutputVector { w: false, y: false, g: false }
    }

    pub open spec fn spec_off() -> OutputVector {
        OutputVector { w: false, y: false, g: false }
    }

    /// All three contacts are released.
    pub open spec fn all_off(self) -> bool {
        !self.w && !self.y && !self.g
    }

    /// Heating and cooling are called at the same time.
    pub open spec fn heat_cool_conflict(self) -> bool {
        self.w && self.y
    }

    pub fn is_all_off(self) -> (r: bool)
        ensures
            r == self.all_off(),
    {
        !self.w && !self.y && !self.g
    }

    pub fn has_heat_cool_conflict(self) -> (r: bool)
        ensures
            r == self.heat_cool_conflict(),
    {
        self.w && self.y
    }
}

} // verus!
