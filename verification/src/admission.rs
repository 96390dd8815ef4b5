//! The admission gate bounding concurrent sessions.
//!
//! A counting gate with a fixed positive capacity. `try_acquire`
//! grants a ticket immediately when capacity remains and fails without
//! blocking otherwise; `release` returns a ticket when its session
//! ends, whatever ended it. The surrounding application shares one
//! gate across its connection tasks and ties each ticket to one
//! session's lifetime.

use vstd::prelude::*;

verus! {

/// The counting gate: how many tickets exist, and how many are out.
pub struct AdmissionController {
    /// The fixed number of tickets: the most sessions served at once.
    pub capacity: usize,
    /// The tickets currently held by live sessions.
    pub held: usize,
}

/// Whether a gate in this state grants the next ticket.
pub open spec fn can_admit(gate: AdmissionController) -> bool {
    gate.held < gate.capacity
}

impl AdmissionController {
    /// A well-formed gate: a positive capacity, never exceeded.
    pub open spec fn wf(&self) -> bool {
        &&& self.capacity >= 1
        &&& self.held <= self.capacity
    }

    /// A gate with the given capacity and no ticket out.
    pub fn new(capacity: usize) -> (gate: AdmissionController)
        requires
            capacity >= 1,
        ensures
            gate.wf(),
            gate.capacity == capacity,
            gate.held == 0,
    {
        AdmissionController { capacity, held: 0 }
    }

    /// Asks for a ticket. Grants one exactly when capacity remains;
    /// the caller is never made to wait.
    pub fn try_acquire(&mut self) -> (granted: bool)
        requires
            old(self).wf(),
        ensures
            final(self).wf(),
            final(self).capacity == old(self).capacity,
            granted == can_admit(*old(self)),
            granted ==> final(self).held == old(self).held + 1,
            !granted ==> final(self).held == old(self).held,
    {
        if self.held < self.capacity {
            self.held = self.held + 1;
            true
        } else {
            false
        }
    }

    /// Returns a held ticket.
    pub fn release(&mut self)
        requires
            old(self).wf(),
            old(self).held >= 1,
        ensures
            final(self).wf(),
            final(self).capacity == old(self).capacity,
            final(self).held == old(self).held - 1,
    {
        self.held = self.held - 1;
    }
}

/// With all of a gate's tickets held, the next request fails; once
/// any one ticket is returned, the next request succeeds again.
pub proof fn lemma_admission_gate(gate: AdmissionController)
    requires
        gate.wf(),
        gate.held == gate.capacity,
    ensures
        !can_admit(gate),
        forall|after: AdmissionController|
            after.capacity == gate.capacity && after.held == gate.held - 1 ==> #[trigger] can_admit(
                after,
            ),
{
}

} // verus!
