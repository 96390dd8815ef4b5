//! The per-session heartbeat liveness monitor.
//!
//! Two monotonically increasing counters in lock-step: probes sent and
//! probe responses received. On each timer tick, an unanswered probe
//! means the peer is dead and the session must be torn down with a
//! policy-violation close; otherwise a fresh probe goes out. One probe
//! may be in flight at a time, never two. An unsolicited probe from
//! the peer is answered by the transport directly and does not touch
//! these counters.

use vstd::prelude::*;

verus! {

/// What a timer tick requires of the session.
#[derive(Debug, Clone, Copy, PartialEq, Eq, Structural)]
pub enum TickAction {
    /// The previous probe was answered in time: send a fresh probe.
    SendProbe,
    /// The previous probe went unanswered: close the session with a
    /// policy-violation reason.
    Terminate,
}

/// Whether a tick in this counter state tears the session down.
pub open spec fn tick_terminates(probes_sent: int, probes_acked: int) -> bool {
    probes_sent != probes_acked
}

/// The heartbeat counters of one session.
pub struct HeartbeatMonitor {
    /// Liveness probes sent to the peer.
    pub probes_sent: u64,
    /// Probe responses received from the peer.
    pub probes_acked: u64,
}

impl HeartbeatMonitor {
    /// A fresh monitor: nothing sent, nothing answered.
    pub fn new() -> (monitor: HeartbeatMonitor)
        ensures
            monitor.probes_sent == 0,
            monitor.probes_acked == 0,
    {
        HeartbeatMonitor { probes_sent: 0, probes_acked: 0 }
    }

    /// The timer fired: either the peer kept up and a fresh probe is
    /// sent, or it missed a probe and the session terminates.
    pub fn on_tick(&mut self) -> (action: TickAction)
        requires
            old(self).probes_sent < u64::MAX,
        ensures
            (action == TickAction::Terminate) == tick_terminates(
                old(self).probes_sent as int,
                old(self).probes_acked as int,
            ),
            action == TickAction::Terminate ==> *final(self) == *old(self),
            action == TickAction::SendProbe ==> final(self).probes_sent == old(self).probes_sent
                + 1 && final(self).probes_acked == old(self).probes_acked,
    {
        if self.probes_sent != self.probes_acked {
            TickAction::Terminate
        } else {
            self.probes_sent = self.probes_sent + 1;
            TickAction::SendProbe
        }
    }

    /// The peer answered a probe.
    pub fn on_response(&mut self)
        requires
            old(self).probes_acked < u64::MAX,
        ensures
            final(self).probes_acked == old(self).probes_acked + 1,
            final(self).probes_sent == old(self).probes_sent,
    {
        self.probes_acked = self.probes_acked + 1;
    }
}

/// With one probe in flight, the next tick tears the session down if
/// and only if the response has not arrived; a session whose probes
/// are all answered keeps probing and never terminates on a tick.
pub proof fn lemma_heartbeat_policy(probes_sent: int, probes_acked: int)
    requires
        probes_acked == probes_sent - 1,
    ensures
        tick_terminates(probes_sent, probes_acked),
        !tick_terminates(probes_sent, probes_acked + 1),
        forall|n: int| !tick_terminates(n, n),
{
}

} // verus!
