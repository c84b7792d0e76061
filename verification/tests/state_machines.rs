use esp32c3_embassy_picoserve::wifi::gate_step;
use esp32c3_embassy_picoserve::wifi::net_stack_seed;
use esp32c3_embassy_picoserve::wifi::supervisor_step;
use esp32c3_embassy_picoserve::wifi::ConnectionState;
use esp32c3_embassy_picoserve::wifi::GatePhase;
use esp32c3_embassy_picoserve::wifi::RadioCommand;
use esp32c3_embassy_picoserve::wifi::RadioEvent;
use esp32c3_embassy_picoserve::wifi::StackProbe;
use esp32c3_embassy_picoserve::wifi::POLL_INTERVAL_MS;
use esp32c3_embassy_picoserve::wifi::RETRY_DELAY_MS;

#[test]
fn supervisor_walks_forward_path() {
    let t = supervisor_step(ConnectionState::Disconnected, RadioEvent::SupervisorStarted);
    assert_eq!(t.next, ConnectionState::Starting);
    assert_eq!(t.delay_ms, 0);
    assert_eq!(t.command, RadioCommand::ConfigureAndStart);

    let t = supervisor_step(ConnectionState::Starting, RadioEvent::StartOk);
    assert_eq!(t.next, ConnectionState::Connecting);
    assert_eq!(t.command, RadioCommand::Connect);

    let t = supervisor_step(ConnectionState::Connecting, RadioEvent::ConnectOk);
    assert_eq!(t.next, ConnectionState::Connected);
    assert_eq!(t.command, RadioCommand::WatchForDisconnect);
}

#[test]
fn supervisor_retries_failed_association_with_fixed_delay() {
    let t = supervisor_step(ConnectionState::Connecting, RadioEvent::ConnectFailed);
    assert_eq!(t.next, ConnectionState::Connecting);
    assert_eq!(t.delay_ms, RETRY_DELAY_MS);
    assert_eq!(t.command, RadioCommand::Connect);
}

#[test]
fn supervisor_debounces_disconnect_back_to_starting() {
    let t = supervisor_step(ConnectionState::Connected, RadioEvent::DisconnectObserved);
    assert_eq!(t.next, ConnectionState::Starting);
    assert_eq!(t.delay_ms, RETRY_DELAY_MS);
    assert_eq!(t.command, RadioCommand::ConfigureAndStart);
}

#[test]
fn supervisor_start_failure_is_fatal() {
    let t = supervisor_step(ConnectionState::Starting, RadioEvent::StartFailed);
    assert_eq!(t.command, RadioCommand::Halt);
}

#[test]
fn supervisor_recovers_from_every_disconnect() {
    let rounds = 3;
    let mut state = ConnectionState::Connected;
    let mut total_delay: u64 = 0;
    for _ in 0..rounds {
        for event in [
            RadioEvent::DisconnectObserved,
            RadioEvent::AlreadyStarted,
            RadioEvent::ConnectOk,
        ] {
            let t = supervisor_step(state, event);
            state = t.next;
            total_delay += t.delay_ms;
        }
        assert_eq!(state, ConnectionState::Connected);
    }
    assert_eq!(total_delay, RETRY_DELAY_MS * rounds);
}

#[test]
fn gate_polls_link_then_address() {
    let down = StackProbe { link_up: false, address: None };
    let step = gate_step(GatePhase::WaitLink, down);
    assert_eq!(step.phase, GatePhase::WaitLink);
    assert_eq!(step.delay_ms, POLL_INTERVAL_MS);
    assert!(step.handle.is_none());

    let up = StackProbe { link_up: true, address: None };
    let step = gate_step(GatePhase::WaitLink, up);
    assert_eq!(step.phase, GatePhase::WaitAddress);
    assert!(step.handle.is_none());

    let step = gate_step(GatePhase::WaitAddress, up);
    assert_eq!(step.phase, GatePhase::WaitAddress);
    assert_eq!(step.delay_ms, POLL_INTERVAL_MS);
    assert!(step.handle.is_none());
}

#[test]
fn gate_publishes_handle_only_on_dual_readiness() {
    let leased = StackProbe { link_up: true, address: Some(0xC0A8_0117) };
    let step = gate_step(GatePhase::WaitAddress, leased);
    assert_eq!(step.phase, GatePhase::Ready);
    let handle = step.handle.expect("handle must be published");
    assert_eq!(handle.address(), 0xC0A8_0117);
}

#[test]
fn gate_reverifies_link_before_publishing() {
    let stale = StackProbe { link_up: false, address: Some(0xC0A8_0117) };
    let step = gate_step(GatePhase::WaitAddress, stale);
    assert_eq!(step.phase, GatePhase::WaitLink);
    assert!(step.handle.is_none());
}

#[test]
fn net_stack_seed_packs_both_words() {
    let seed = net_stack_seed(0xDEAD_BEEF, 0x1234_5678);
    assert_eq!(seed, 0x1234_5678_DEAD_BEEF);
    assert_eq!(net_stack_seed(0, 0), 0);
    assert_eq!(net_stack_seed(1, 0), 1);
    assert_eq!(net_stack_seed(0, 1), 1 << 32);
}
