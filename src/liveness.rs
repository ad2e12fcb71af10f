//! The liveness policy: a pure decision over idle time and unanswered probes.
use vstd::prelude::*;

verus! {

/// How often a probe is sent to the peer, in milliseconds.
pub const HEARTBEAT_INTERVAL: u64 = 5000;

/// How long the peer may stay silent before the connection is dropped, in
/// milliseconds.
pub const CLIENT_TIMEOUT: u64 = 10000;

/// How many probes may go unanswered before the connection is dropped.
pub const MAX_PROBES: u32 = 36;

/// What the supervisor does on one tick.
#[derive(Clone, Copy, Debug, PartialEq, Eq, Structural)]
pub enum Decision {
    /// The peer is fine and nothing is due.
    Healthy,
    /// The peer is fine and a probe is due.
    SendProbe,
    /// The peer is gone: close the connection.
    Terminate,
}

/// The policy as a mathematical function. The hard idle ceiling is checked
/// before the probe budget, and both before any probe.
pub open spec fn decide(idle: int, unanswered: int, probe_tick: bool) -> Decision {
    if idle > CLIENT_TIMEOUT {
        Decision::Terminate
    } else if unanswered > MAX_PROBES {
        Decision::Terminate
    } else if probe_tick {
        Decision::SendProbe
    } else {
        Decision::Healthy
    }
}

/// Decides the fate of a connection that has been idle for `idle`
/// milliseconds with `unanswered` probes outstanding; `probe_tick` says
/// whether this tick is one on which a probe is scheduled.
pub fn evaluate(idle: u64, unanswered: u32, probe_tick: bool) -> (r: Decision)
    ensures
        r == decide(idle as int, unanswered as int, probe_tick),
{
    if idle > CLIENT_TIMEOUT {
        Decision::Terminate
    } else if unanswered > MAX_PROBES {
        Decision::Terminate
    } else if probe_tick {
        Decision::SendProbe
    } else {
        Decision::Healthy
    }
}

/// An idle period longer than the client timeout terminates the connection,
/// whatever the number of unanswered probes, zero included.
pub proof fn lemma_idle_timeout_terminates(idle: u64, unanswered: u32, probe_tick: bool)
    requires
        idle > CLIENT_TIMEOUT,
    ensures
        decide(idle as int, unanswered as int, probe_tick) == Decision::Terminate,
{
}

/// Within the idle ceiling, more unanswered probes than the budget allows
/// terminate the connection.
pub proof fn lemma_probe_budget_terminates(idle: u64, unanswered: u32, probe_tick: bool)
    requires
        idle <= CLIENT_TIMEOUT,
        unanswered > MAX_PROBES,
    ensures
        decide(idle as int, unanswered as int, probe_tick) == Decision::Terminate,
{
}

/// Within the idle ceiling and the probe budget, a tick on which no probe is
/// scheduled finds the connection healthy.
pub proof fn lemma_quiet_tick_healthy(idle: u64, unanswered: u32)
    requires
        idle <= CLIENT_TIMEOUT,
        unanswered <= MAX_PROBES,
    ensures
        decide(idle as int, unanswered as int, false) == Decision::Healthy,
{
}

} // verus!
