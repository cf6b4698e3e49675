use vstd::prelude::*;

verus! {

#[derive(Clone, Copy, Debug, PartialEq, Eq, Structural)]
pub enum ClockError {
    Overflow,
}

/// Virtual monotonic time in milliseconds.
#[derive(Clone, Copy, Debug, PartialEq, Eq, Structural)]
pub struct VirtualClock {
    now_ms: u64,
}

impl View for VirtualClock {
    type V = u64;

    closed spec fn view(&self) -> u64 {
        self.now_ms
    }
}

impl Default for VirtualClock {
    fn default() -> (c: VirtualClock)
        ensures
            c@ == 0,
    {
        VirtualClock { now_ms: 0 }
    }
}

impl VirtualClock {
    pub fn new(now_ms: u64) -> (c: VirtualClock)
        ensures
            c@ == now_ms,
    {
        VirtualClock { now_ms }
    }

    pub fn now_ms(self) -> (t: u64)
        ensures
            t == self@,
    {
        self.now_ms
    }

    /// Advances virtual monotonic time by `delta_ms`, or reports an overflow
    /// and leaves the clock unchanged when the sum is not representable.
    pub fn advance_ms(&mut self, delta_ms: u64) -> (r: Result<u64, ClockError>)
        ensures
            old(self)@ + delta_ms <= u64::MAX ==> r == Ok::<u64, ClockError>((old(self)@ + delta_ms) as u64)
                && final(self)@ == old(self)@ + delta_ms,
            old(self)@ + delta_ms > u64::MAX ==> r == Err::<u64, ClockError>(ClockError::Overflow)
                && final(self)@ == old(self)@,
    {
        match self.now_ms.checked_add(delta_ms) {
            Some(next) => {
                self.now_ms = next;
                Ok(next)
            },
            None => Err(ClockError::Overflow),
        }
    }
}

} // verus!
