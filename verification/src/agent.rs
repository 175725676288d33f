//! The worker agent: the process behind NAT that keeps one outbound
//! connection to the broker alive and relays it to a local target
//! service.
//!
//! Its whole life is a two-and-a-half-state cycle: dial the broker;
//! on success dial the local target, send the greeting line and relay
//! until either side ends; on any failure sleep one backoff interval
//! and start over. The loop has no exit: every event leads to a next
//! action, so the agent retries forever and is the sole supply of the
//! broker's idle pool. The runtime drives the cycle by performing each
//! returned action and feeding the outcome back as the next event.

use vstd::prelude::*;

verus! {

/// The agent's immutable configuration: the opaque worker identifier
/// (sent to the local target as the greeting line) and the backoff
/// interval slept after every failure or finished relay.
pub struct AgentConfig {
    /// Opaque identifier, fixed for the agent's lifetime; it never
    /// reaches the broker, only the local target's greeting.
    pub product_id: Vec<u8>,
    /// Seconds to wait before redialing the broker.
    pub backoff_secs: u64,
}

/// Where the agent stands in its cycle.
#[derive(Clone, Copy, PartialEq, Eq, Structural, Debug)]
pub enum AgentState {
    /// Dialing the broker's worker-listen endpoint.
    Connecting,
    /// Broker reached; dialing the configured local target.
    ConnectingTarget,
    /// Both legs up: greeting sent, bytes relayed until either ends.
    Relaying,
    /// Sleeping one backoff interval before the next dial.
    Backoff,
}

/// What the runtime reports back after performing an action.
#[derive(Clone, Copy, PartialEq, Eq, Structural, Debug)]
pub enum AgentEvent {
    /// The dial to the broker succeeded.
    BrokerDialOk,
    /// The dial to the broker failed.
    BrokerDialFailed,
    /// The dial to the local target succeeded.
    TargetDialOk,
    /// The dial to the local target failed.
    TargetDialFailed,
    /// The relay returned, for any reason: remote close, local-target
    /// close, or an I/O error on either leg (the greeting write
    /// counts as part of the relay).
    RelayEnded,
    /// The backoff sleep is over.
    BackoffElapsed,
}

/// What the runtime must do next.
#[derive(Clone, Copy, PartialEq, Eq, Structural, Debug)]
pub enum AgentAction {
    /// Dial the broker's worker-listen address.
    DialBroker,
    /// Dial the configured local target address.
    DialTarget,
    /// Write the greeting line to the local target, then relay the
    /// broker leg and the target leg both ways until either ends.
    GreetAndRelay,
    /// Log and sleep this many seconds, then report `BackoffElapsed`.
    Sleep(u64),
}

/// Which events can answer the pending action of each state.
pub open spec fn event_fits(s: AgentState, e: AgentEvent) -> bool {
    match s {
        AgentState::Connecting => e is BrokerDialOk || e is BrokerDialFailed,
        AgentState::ConnectingTarget => e is TargetDialOk || e is TargetDialFailed,
        AgentState::Relaying => e is RelayEnded,
        AgentState::Backoff => e is BackoffElapsed,
    }
}

/// The transition relation of the reconnect cycle: every success
/// moves one step forward, every failure (and every finished relay)
/// falls into one backoff sleep and then back to dialing the broker.
pub open spec fn spec_step(s: AgentState, e: AgentEvent, backoff_secs: u64) -> (AgentState,
    AgentAction) {
    match (s, e) {
        (AgentState::Connecting, AgentEvent::BrokerDialOk) => (
            AgentState::ConnectingTarget,
            AgentAction::DialTarget,
        ),
        (AgentState::ConnectingTarget, AgentEvent::TargetDialOk) => (
            AgentState::Relaying,
            AgentAction::GreetAndRelay,
        ),
        (AgentState::Backoff, AgentEvent::BackoffElapsed) => (
            AgentState::Connecting,
            AgentAction::DialBroker,
        ),
        _ => (AgentState::Backoff, AgentAction::Sleep(backoff_secs)),
    }
}

/// One step of the agent's cycle: from the current state and the
/// event the runtime reports, decide the next state and the next
/// action. Dial failures and relay endings are never fatal — they
/// land in `Backoff` — and a backoff that elapses always redials the
/// broker.
pub fn agent_step(cfg: &AgentConfig, s: AgentState, e: AgentEvent) -> (r: (
    AgentState,
    AgentAction,
))
    requires
        event_fits(s, e),
    ensures
        r == spec_step(s, e, cfg.backoff_secs),
{
    match (s, e) {
        (AgentState::Connecting, AgentEvent::BrokerDialOk) => (
            AgentState::ConnectingTarget,
            AgentAction::DialTarget,
        ),
        (AgentState::ConnectingTarget, AgentEvent::TargetDialOk) => (
            AgentState::Relaying,
            AgentAction::GreetAndRelay,
        ),
        (AgentState::Backoff, AgentEvent::BackoffElapsed) => (
            AgentState::Connecting,
            AgentAction::DialBroker,
        ),
        _ => (AgentState::Backoff, AgentAction::Sleep(cfg.backoff_secs)),
    }
}

/// The state the agent starts in: dialing the broker.
pub fn agent_start() -> (r: (AgentState, AgentAction))
    ensures
        r == (AgentState::Connecting, AgentAction::DialBroker),
{
    (AgentState::Connecting, AgentAction::DialBroker)
}

/// Reconnect liveness: the cycle has no terminal state. Every state
/// accepts some event; a failed dial to the broker costs exactly one
/// sleep of the configured interval, after which the agent redials
/// the broker; and every other failure or finished relay takes the
/// same road. So as long as the runtime performs each action, the
/// agent retries indefinitely and never exits on its own.
pub proof fn lemma_reconnect_liveness(backoff_secs: u64)
    ensures
        event_fits(AgentState::Connecting, AgentEvent::BrokerDialFailed),
        event_fits(AgentState::ConnectingTarget, AgentEvent::TargetDialFailed),
        event_fits(AgentState::Relaying, AgentEvent::RelayEnded),
        event_fits(AgentState::Backoff, AgentEvent::BackoffElapsed),
        spec_step(AgentState::Connecting, AgentEvent::BrokerDialFailed, backoff_secs) == (
            AgentState::Backoff,
            AgentAction::Sleep(backoff_secs),
        ),
        spec_step(AgentState::ConnectingTarget, AgentEvent::TargetDialFailed, backoff_secs) == (
            AgentState::Backoff,
            AgentAction::Sleep(backoff_secs),
        ),
        spec_step(AgentState::Relaying, AgentEvent::RelayEnded, backoff_secs) == (
            AgentState::Backoff,
            AgentAction::Sleep(backoff_secs),
        ),
        spec_step(AgentState::Backoff, AgentEvent::BackoffElapsed, backoff_secs) == (
            AgentState::Connecting,
            AgentAction::DialBroker,
        ),
{
}

/// The greeting line announced to the local target before any
/// relayed byte: the literal bytes of `PRODUCT_ID:`, then the
/// identifier, then one newline.
pub open spec fn spec_greeting(id: Seq<u8>) -> Seq<u8> {
    greeting_prefix() + id + seq![10u8]
}

/// The bytes of the literal `PRODUCT_ID:`.
pub open spec fn greeting_prefix() -> Seq<u8> {
    seq![80u8, 82u8, 79u8, 68u8, 85u8, 67u8, 84u8, 95u8, 73u8, 68u8, 58u8]
}

/// Builds the greeting line `PRODUCT_ID:<identifier>\n` for the
/// configured identifier. The runtime writes exactly these bytes to
/// the local target before the relay starts, so the target sees them
/// ahead of any relayed application byte.
pub fn greeting_line(cfg: &AgentConfig) -> (r: Vec<u8>)
    ensures
        r@ == spec_greeting(cfg.product_id@),
{
    let mut r: Vec<u8> = Vec::new();
    r.push(80u8);  // P
    r.push(82u8);  // R
    r.push(79u8);  // O
    r.push(68u8);  // D
    r.push(85u8);  // U
    r.push(67u8);  // C
    r.push(84u8);  // T
    r.push(95u8);  // _
    r.push(73u8);  // I
    r.push(68u8);  // D
    r.push(58u8);  // :
    proof {
        assert(r@ =~= greeting_prefix());
    }
    let n = cfg.product_id.len();
    for i in 0..n
        invariant
            n == cfg.product_id@.len(),
            r@ == greeting_prefix() + cfg.product_id@.take(i as int),
    {
        r.push(cfg.product_id[i]);
        proof {
            assert(r@ =~= greeting_prefix() + cfg.product_id@.take(i + 1));
        }
    }
    proof {
        assert(cfg.product_id@.take(n as int) =~= cfg.product_id@);
    }
    r.push(10u8);  // newline
    proof {
        assert(r@ =~= spec_greeting(cfg.product_id@));
    }
    r
}

} // verus!
