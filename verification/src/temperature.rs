use vstd::prelude::*;

verus! {

/// Lowest representable temperature, in thousandths of a degree Celsius.
pub const MIN_MILLI_CELSIUS: i32 = -100_000;
/// Highest representable temperature, in thousandths of a degree Celsius.
pub const MAX_MILLI_CELSIUS: i32 = 200_000;

/// Fixed-point temperature in thousandths of one degree Celsius, always
/// within the broad ingestion range.
#[derive(Clone, Copy, Debug, PartialEq, Eq, Structural, PartialOrd, Ord, Hash)]
pub struct MilliCelsius(i32);

#[derive(Clone, Copy, Debug, PartialEq, Eq, Structural)]
pub enum TemperatureError {
    NotFinite,
    OutOfRange,
}

impl View for MilliCelsius {
    type V = int;

    closed spec fn view(&self) -> int {
        self.0 as int
    }
}

impl Default for MilliCelsius {
    /// Zero degrees Celsius.
    fn default() -> (r: MilliCelsius)
        ensures
            r@ == 0,
    {
        MilliCelsius(0)
    }
}

impl MilliCelsius {
    /// The lowest representable temperature.
    pub fn min_value() -> (r: MilliCelsius)
        ensures
            r@ == MIN_MILLI_CELSIUS,
    {
        MilliCelsius(MIN_MILLI_CELSIUS)
    }

    /// The highest representable temperature.
    pub fn max_value() -> (r: MilliCelsius)
        ensures
            r@ == MAX_MILLI_CELSIUS,
    {
        MilliCelsius(MAX_MILLI_CELSIUS)
    }

    #[verifier::type_invariant]
    spec fn in_range(self) -> bool {
        MIN_MILLI_CELSIUS <= self.0 <= MAX_MILLI_CELSIUS
    }

    pub fn from_milli_celsius(value: i32) -> (r: Option<MilliCelsius>)
        ensures
            r is Some <==> MIN_MILLI_CELSIUS <= value <= MAX_MILLI_CELSIUS,
            r matches Some(t) ==> t@ == value,
    {
        if value < MIN_MILLI_CELSIUS || value > MAX_MILLI_CELSIUS {
            None
        } else {
            Some(MilliCelsius(value))
        }
    }

    /// Two temperatures with the same value in thousandths of a degree are
    /// the same temperature.
    pub proof fn lemma_view_determines_value(a: MilliCelsius, b: MilliCelsius)
        requires
            a@ == b@,
        ensures
            a == b,
    {
    }

    pub fn as_milli_celsius(self) -> (v: i32)
        ensures
            v == self@,
            MIN_MILLI_CELSIUS <= v <= MAX_MILLI_CELSIUS,
    {
        proof { use_type_invariant(&self); }
        self.0
    }
}

} // verus!
