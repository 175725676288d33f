use mi7_reverse::agent::{
    agent_start, agent_step, greeting_line, AgentAction, AgentConfig, AgentEvent, AgentState,
};

fn cfg(id: &str, backoff: u64) -> AgentConfig {
    AgentConfig { product_id: id.as_bytes().to_vec(), backoff_secs: backoff }
}

#[test]
fn agent_starts_by_dialing_broker() {
    assert_eq!(agent_start(), (AgentState::Connecting, AgentAction::DialBroker));
}

#[test]
fn happy_path_reaches_relaying() {
    let c = cfg("shop-1", 5);
    let (s1, a1) = agent_step(&c, AgentState::Connecting, AgentEvent::BrokerDialOk);
    assert_eq!(s1, AgentState::ConnectingTarget);
    assert_eq!(a1, AgentAction::DialTarget);
    let (s2, a2) = agent_step(&c, s1, AgentEvent::TargetDialOk);
    assert_eq!(s2, AgentState::Relaying);
    assert_eq!(a2, AgentAction::GreetAndRelay);
}

#[test]
fn broker_dial_failure_sleeps_then_redials() {
    let c = cfg("shop-1", 5);
    let (s1, a1) = agent_step(&c, AgentState::Connecting, AgentEvent::BrokerDialFailed);
    assert_eq!(s1, AgentState::Backoff);
    assert_eq!(a1, AgentAction::Sleep(5));
    let (s2, a2) = agent_step(&c, s1, AgentEvent::BackoffElapsed);
    assert_eq!(s2, AgentState::Connecting);
    assert_eq!(a2, AgentAction::DialBroker);
}

#[test]
fn target_dial_failure_sleeps_then_redials() {
    let c = cfg("shop-1", 7);
    let (s1, a1) = agent_step(&c, AgentState::ConnectingTarget, AgentEvent::TargetDialFailed);
    assert_eq!(s1, AgentState::Backoff);
    assert_eq!(a1, AgentAction::Sleep(7));
    let (s2, _) = agent_step(&c, s1, AgentEvent::BackoffElapsed);
    assert_eq!(s2, AgentState::Connecting);
}

#[test]
fn finished_relay_sleeps_then_redials() {
    let c = cfg("shop-1", 5);
    let (s1, a1) = agent_step(&c, AgentState::Relaying, AgentEvent::RelayEnded);
    assert_eq!(s1, AgentState::Backoff);
    assert_eq!(a1, AgentAction::Sleep(5));
}

#[test]
fn repeated_failures_retry_forever() {
    // A broker that never answers keeps the agent cycling between
    // Connecting and Backoff at the configured interval, with no exit.
    let c = cfg("shop-1", 3);
    let (mut state, mut action) = agent_start();
    for _ in 0..1000 {
        match action {
            AgentAction::DialBroker => {
                assert_eq!(state, AgentState::Connecting);
                let (s, a) = agent_step(&c, state, AgentEvent::BrokerDialFailed);
                state = s;
                action = a;
            }
            AgentAction::Sleep(secs) => {
                assert_eq!(state, AgentState::Backoff);
                assert_eq!(secs, 3);
                let (s, a) = agent_step(&c, state, AgentEvent::BackoffElapsed);
                state = s;
                action = a;
            }
            other => panic!("unexpected action while broker is down: {:?}", other),
        }
    }
}

#[test]
fn greeting_is_exactly_the_framed_identifier() {
    // The local target sees `PRODUCT_ID:<identifier>\n` before any
    // relayed application byte.
    let c = cfg("widget-42", 5);
    assert_eq!(greeting_line(&c), b"PRODUCT_ID:widget-42\n".to_vec());
}

#[test]
fn greeting_of_empty_identifier() {
    let c = cfg("", 5);
    assert_eq!(greeting_line(&c), b"PRODUCT_ID:\n".to_vec());
}
