use vstd::prelude::*;

use crate::invariants::{InvariantViolation, validate_output_vector};
use crate::types::OutputVector;

verus! {

/// One change of the applied contact vector.
#[derive(Clone, Copy, Debug, PartialEq, Eq, Structural)]
pub struct ActuatorTransition {
    pub at_ms: u64,
    pub previous: OutputVector,
    pub next: OutputVector,
}

#[derive(Clone, Copy, Debug, PartialEq, Eq, Structural)]
pub enum ActuatorError {
    Invariant(InvariantViolation),
    NonMonotonicApplication,
}

/// A simulated actuator that applies complete contact vectors as single
/// transactions. It starts de-energized and only ever applies vectors that do
/// not call heat and cool together.
#[derive(Clone, Debug, PartialEq, Eq)]
pub struct VirtualActuator {
    current: OutputVector,
    last_applied_at_ms: Option<u64>,
    applications: u64,
    transitions: Vec<ActuatorTransition>,
}

impl VirtualActuator {
    /// The applied contact vector.
    pub closed spec fn applied(self) -> OutputVector {
        self.current
    }

    /// Time of the last accepted application, if any.
    pub closed spec fn last_applied(self) -> Option<u64> {
        self.last_applied_at_ms
    }

    /// Number of accepted applications (saturating).
    pub closed spec fn application_count(self) -> u64 {
        self.applications
    }

    /// Every change of the applied vector, oldest first.
    pub closed spec fn history(self) -> Seq<ActuatorTransition> {
        self.transitions@
    }

    /// The recorded history is a chain of real changes from OFF to the
    /// applied vector: each transition changes the vector and never calls heat
    /// and cool together, the first starts from OFF, each starts where the
    /// previous one ended, times never decrease and do not pass the latest
    /// application, the last ends at the applied vector (which is OFF when
    /// nothing was recorded), and there are no more transitions than counted
    /// applications (unless that count has saturated).
    pub open spec fn history_is_consistent(self) -> bool {
        let h = self.history();
        &&& !self.applied().heat_cool_conflict()
        &&& forall|i: int| 0 <= i < h.len() ==> #[trigger] h[i].previous != h[i].next
            && !h[i].next.heat_cool_conflict()
        &&& forall|i: int| 0 <= i < h.len() - 1 ==> #[trigger] h[i].next == h[i + 1].previous
            && h[i].at_ms <= h[i + 1].at_ms
        &&& h.len() == 0 ==> self.applied() == OutputVector::spec_off()
        &&& h.len() > 0 ==> {
            &&& h[0].previous == OutputVector::spec_off()
            &&& h[h.len() - 1].next == self.applied()
            &&& self.last_applied() matches Some(p) && h[h.len() - 1].at_ms <= p
        }
        &&& h.len() <= self.application_count() || self.application_count() == u64::MAX
    }

    /// The error with which `apply(at_ms, next)` is rejected, if any: an unsafe
    /// vector first, then an application older than the latest one.
    pub open spec fn rejection(self, at_ms: u64, next: OutputVector) -> Option<ActuatorError> {
        if next.heat_cool_conflict() {
            Some(ActuatorError::Invariant(InvariantViolation::HeatCoolConflict))
        } else if self.last_applied() matches Some(previous) && at_ms < previous {
            Some(ActuatorError::NonMonotonicApplication)
        } else {
            None
        }
    }

    pub fn current(&self) -> (r: OutputVector)
        ensures
            r == self.applied(),
    {
        self.current
    }

    pub fn applications(&self) -> (r: u64)
        ensures
            r == self.application_count(),
    {
        self.applications
    }

    pub fn transitions(&self) -> (r: &[ActuatorTransition])
        ensures
            r@ == self.history(),
    {
        self.transitions.as_slice()
    }

    /// Applies a complete logical output vector as one simulated transaction.
    /// A rejected application changes nothing; an accepted one counts, becomes
    /// the latest application time and the applied vector, and is recorded
    /// as a transition exactly when it changes the applied vector.
    pub fn apply(&mut self, at_ms: u64, next: OutputVector) -> (r: Result<(), ActuatorError>)
        ensures
            match old(self).rejection(at_ms, next) {
                Some(e) => r == Err::<(), ActuatorError>(e) && *final(self) == *old(self),
                None => {
                    &&& r is Ok
                    &&& !next.heat_cool_conflict()
                    &&& final(self).applied() == next
                    &&& final(self).last_applied() == Some(at_ms)
                    &&& final(self).application_count() == old(self).application_count().saturating_add(1)
                    &&& final(self).history() == if next != old(self).applied() {
                        old(self).history().push(
                            ActuatorTransition { at_ms, previous: old(self).applied(), next },
                        )
                    } else {
                        old(self).history()
                    }
                },
            },
            old(self).history_is_consistent() ==> final(self).history_is_consistent(),
    {
        match validate_output_vector(next) {
            Err(violation) => return Err(ActuatorError::Invariant(violation)),
            Ok(()) => {},
        }
        match self.last_applied_at_ms {
            Some(previous) => {
                if at_ms < previous {
                    return Err(ActuatorError::NonMonotonicApplication);
                }
            },
            None => {},
        }
        self.applications = self.applications.saturating_add(1);
        self.last_applied_at_ms = Some(at_ms);
        if next != self.current {
            self.transitions.push(ActuatorTransition { at_ms, previous: self.current, next });
            self.current = next;
        }
        Ok(())
    }
}

impl Default for VirtualActuator {
    fn default() -> (a: VirtualActuator)
        ensures
            a.applied() == OutputVector::spec_off(),
            a.last_applied() is None,
            a.application_count() == 0,
            a.history() == Seq::<ActuatorTransition>::empty(),
            a.history_is_consistent(),
    {
        VirtualActuator {
            current: OutputVector::off(),
            last_applied_at_ms: None,
            applications: 0,
            transitions: Vec::new(),
        }
    }
}

} // verus!
