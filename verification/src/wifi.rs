//! Wireless connection supervisor and network readiness gate.
//!
//! The supervisor keeps the radio associated for the life of the process:
//! it is a state machine over [`ConnectionState`] that the runtime drives
//! with the events it observes from the radio controller. The readiness
//! gate blocks consumers until the link is up and an address has been
//! leased, and only then publishes a [`NetworkHandle`].

use vstd::prelude::*;

verus! {

/// Fixed debounce and retry delay of the supervisor, in milliseconds.
pub const RETRY_DELAY_MS: u64 = 5000;

/// Fixed polling interval of the readiness gate, in milliseconds.
pub const POLL_INTERVAL_MS: u64 = 500;

/// Connection progress of the radio, advancing only along defined forward
/// edges; a disconnect returns from `Connected` to `Starting`.
#[derive(Clone, Copy, PartialEq, Eq, Structural, Debug)]
pub enum ConnectionState {
    /// The supervisor has not begun driving the radio.
    Disconnected,
    /// The radio must be configured and started (or found already started).
    Starting,
    /// The radio is started; association is being attempted.
    Connecting,
    /// The radio is associated to the access point.
    Connected,
}

/// What the supervisor observes from the radio controller.
#[derive(Clone, Copy, PartialEq, Eq, Structural, Debug)]
pub enum RadioEvent {
    /// The supervisor task has begun running.
    SupervisorStarted,
    /// The controller reports that the radio is already started.
    AlreadyStarted,
    /// Starting the radio succeeded.
    StartOk,
    /// Starting the radio failed; fatal for this design.
    StartFailed,
    /// An association attempt succeeded.
    ConnectOk,
    /// An association attempt failed.
    ConnectFailed,
    /// A disconnect was observed while associated.
    DisconnectObserved,
}

/// What the runtime must do next on the supervisor's behalf.
#[derive(Clone, Copy, PartialEq, Eq, Structural, Debug)]
pub enum RadioCommand {
    /// Apply the static client configuration and start the radio.
    ConfigureAndStart,
    /// Attempt to associate.
    Connect,
    /// Suspend until a disconnect event is observed.
    WatchForDisconnect,
    /// Stop driving the radio: a start failure has no recovery path.
    Halt,
}

/// One supervisor transition: the state entered, the delay to wait before
/// acting, and the action to take then.
#[derive(Clone, Copy, PartialEq, Eq, Structural, Debug)]
pub struct Transition {
    pub next: ConnectionState,
    pub delay_ms: u64,
    pub command: RadioCommand,
}

/// Which events can be observed in which state.
pub open spec fn event_fits(state: ConnectionState, event: RadioEvent) -> bool {
    match state {
        ConnectionState::Disconnected => event == RadioEvent::SupervisorStarted,
        ConnectionState::Starting => event == RadioEvent::AlreadyStarted
            || event == RadioEvent::StartOk
            || event == RadioEvent::StartFailed,
        ConnectionState::Connecting => event == RadioEvent::ConnectOk
            || event == RadioEvent::ConnectFailed,
        ConnectionState::Connected => event == RadioEvent::DisconnectObserved,
    }
}

/// The supervisor's transition function.
///
/// Retries are unconditional and indefinite with the fixed delay: an
/// association failure waits [`RETRY_DELAY_MS`] and tries again, and a
/// disconnect waits the same delay before reconfiguring. A start failure is
/// fatal: the machine stays in `Starting` and commands a halt.
pub open spec fn spec_supervisor_step(state: ConnectionState, event: RadioEvent) -> Transition {
    match (state, event) {
        (ConnectionState::Disconnected, _) => Transition {
            next: ConnectionState::Starting,
            delay_ms: 0,
            command: RadioCommand::ConfigureAndStart,
        },
        (ConnectionState::Starting, RadioEvent::StartFailed) => Transition {
            next: ConnectionState::Starting,
            delay_ms: 0,
            command: RadioCommand::Halt,
        },
        (ConnectionState::Starting, _) => Transition {
            next: ConnectionState::Connecting,
            delay_ms: 0,
            command: RadioCommand::Connect,
        },
        (ConnectionState::Connecting, RadioEvent::ConnectOk) => Transition {
            next: ConnectionState::Connected,
            delay_ms: 0,
            command: RadioCommand::WatchForDisconnect,
        },
        (ConnectionState::Connecting, _) => Transition {
            next: ConnectionState::Connecting,
            delay_ms: RETRY_DELAY_MS,
            command: RadioCommand::Connect,
        },
        (ConnectionState::Connected, _) => Transition {
            next: ConnectionState::Starting,
            delay_ms: RETRY_DELAY_MS,
            command: RadioCommand::ConfigureAndStart,
        },
    }
}

/// The edges of the connection graph: the forward path, the association
/// retry, the halt stutter, and the disconnect recovery edge back to
/// `Starting`. No transition skips a state.
pub open spec fn is_graph_edge(from: ConnectionState, to: ConnectionState) -> bool {
    ||| (from == ConnectionState::Disconnected && to == ConnectionState::Starting)
    ||| (from == ConnectionState::Starting && to == ConnectionState::Connecting)
    ||| (from == ConnectionState::Starting && to == ConnectionState::Starting)
    ||| (from == ConnectionState::Connecting && to == ConnectionState::Connected)
    ||| (from == ConnectionState::Connecting && to == ConnectionState::Connecting)
    ||| (from == ConnectionState::Connected && to == ConnectionState::Starting)
}

/// Law: every supervisor transition follows an edge of the connection graph.
pub proof fn lemma_transitions_follow_graph(state: ConnectionState, event: RadioEvent)
    ensures
        is_graph_edge(state, spec_supervisor_step(state, event).next),
{
}

/// Advance the supervisor by one observed event.
pub fn supervisor_step(state: ConnectionState, event: RadioEvent) -> (t: Transition)
    requires
        event_fits(state, event),
    ensures
        t == spec_supervisor_step(state, event),
        is_graph_edge(state, t.next),
{
    match (state, event) {
        (ConnectionState::Disconnected, _) => Transition {
            next: ConnectionState::Starting,
            delay_ms: 0,
            command: RadioCommand::ConfigureAndStart,
        },
        (ConnectionState::Starting, RadioEvent::StartFailed) => Transition {
            next: ConnectionState::Starting,
            delay_ms: 0,
            command: RadioCommand::Halt,
        },
        (ConnectionState::Starting, _) => Transition {
            next: ConnectionState::Connecting,
            delay_ms: 0,
            command: RadioCommand::Connect,
        },
        (ConnectionState::Connecting, RadioEvent::ConnectOk) => Transition {
            next: ConnectionState::Connected,
            delay_ms: 0,
            command: RadioCommand::WatchForDisconnect,
        },
        (ConnectionState::Connecting, _) => Transition {
            next: ConnectionState::Connecting,
            delay_ms: RETRY_DELAY_MS,
            command: RadioCommand::Connect,
        },
        (ConnectionState::Connected, _) => Transition {
            next: ConnectionState::Starting,
            delay_ms: RETRY_DELAY_MS,
            command: RadioCommand::ConfigureAndStart,
        },
    }
}

/// The state reached and the total delay accumulated by running the
/// supervisor over a sequence of events.
pub open spec fn spec_supervisor_run(state: ConnectionState, events: Seq<RadioEvent>) -> (
    ConnectionState,
    int,
)
    decreases events.len(),
{
    if events.len() == 0 {
        (state, 0)
    } else {
        let t = spec_supervisor_step(state, events[0]);
        let rest = spec_supervisor_run(t.next, events.subrange(1, events.len() as int));
        (rest.0, t.delay_ms + rest.1)
    }
}

/// Running over concatenated event sequences runs them one after the other.
proof fn lemma_run_append(state: ConnectionState, a: Seq<RadioEvent>, b: Seq<RadioEvent>)
    ensures
        spec_supervisor_run(state, a + b).0 == spec_supervisor_run(
            spec_supervisor_run(state, a).0,
            b,
        ).0,
        spec_supervisor_run(state, a + b).1 == spec_supervisor_run(state, a).1
            + spec_supervisor_run(spec_supervisor_run(state, a).0, b).1,
    decreases a.len(),
{
    if a.len() == 0 {
        assert(a + b =~= b);
    } else {
        let t = spec_supervisor_step(state, a[0]);
        assert((a + b)[0] == a[0]);
        assert((a + b).subrange(1, (a + b).len() as int) =~= a.subrange(1, a.len() as int) + b);
        lemma_run_append(t.next, a.subrange(1, a.len() as int), b);
    }
}

/// One simulated drop and successful reconnection: the disconnect is
/// observed, the radio is found already started, and association succeeds.
pub open spec fn recovery_round() -> Seq<RadioEvent> {
    seq![RadioEvent::DisconnectObserved, RadioEvent::AlreadyStarted, RadioEvent::ConnectOk]
}

/// Any number of simulated disconnect events, each followed by a successful
/// reconnection.
pub open spec fn recovery_trace(n: nat) -> Seq<RadioEvent>
    decreases n,
{
    if n == 0 {
        Seq::empty()
    } else {
        recovery_round() + recovery_trace((n - 1) as nat)
    }
}

/// One recovery round returns the supervisor from `Connected` to
/// `Connected`, with exactly the fixed debounce delay.
proof fn lemma_one_round()
    ensures
        spec_supervisor_run(ConnectionState::Connected, recovery_round()).0
            == ConnectionState::Connected,
        spec_supervisor_run(ConnectionState::Connected, recovery_round()).1 == RETRY_DELAY_MS,
{
    reveal_with_fuel(spec_supervisor_run, 5);
    let r = recovery_round();
    let s1 = seq![RadioEvent::AlreadyStarted, RadioEvent::ConnectOk];
    let s2 = seq![RadioEvent::ConnectOk];
    let s3 = Seq::<RadioEvent>::empty();
    assert(r.subrange(1, 3) =~= s1);
    assert(s1.subrange(1, 2) =~= s2);
    assert(s2.subrange(1, 1) =~= s3);
    assert(spec_supervisor_run(ConnectionState::Connecting, s2).0 == ConnectionState::Connected);
    assert(spec_supervisor_run(ConnectionState::Starting, s1).0 == ConnectionState::Connected);
}

/// Law: for any number of simulated disconnect events, each followed by a
/// successful reconnection, the supervisor reaches `Connected` again, and
/// the total delay it imposes is exactly the fixed delay times the number
/// of disconnect events.
pub proof fn lemma_supervisor_recovers(n: nat)
    ensures
        spec_supervisor_run(ConnectionState::Connected, recovery_trace(n)).0
            == ConnectionState::Connected,
        spec_supervisor_run(ConnectionState::Connected, recovery_trace(n)).1
            == RETRY_DELAY_MS * n,
    decreases n,
{
    if n == 0 {
        assert(spec_supervisor_run(ConnectionState::Connected, recovery_trace(0)).1 == 0);
    } else {
        lemma_one_round();
        lemma_run_append(ConnectionState::Connected, recovery_round(), recovery_trace((n - 1) as nat));
        lemma_supervisor_recovers((n - 1) as nat);
        assert(RETRY_DELAY_MS + RETRY_DELAY_MS * (n - 1) == RETRY_DELAY_MS * n) by (nonlinear_arith);
    }
}

/// Combine two 32-bit draws from the hardware random source into the 64-bit
/// seed handed to the network stack.
pub fn net_stack_seed(lo: u32, hi: u32) -> (seed: u64)
    ensures
        seed == (lo as u64) | ((hi as u64) << 32),
        seed & 0xFFFF_FFFF == lo,
        seed >> 32 == hi,
{
    let seed: u64 = (lo as u64) | ((hi as u64) << 32);
    proof {
        let l = lo as u64;
        let h = hi as u64;
        assert(l <= 0xFFFF_FFFF && h <= 0xFFFF_FFFF ==> ((l | (h << 32)) & 0xFFFF_FFFF == l
            && (l | (h << 32)) >> 32 == h)) by (bit_vector);
    }
    seed
}

/// What one poll of the network stack observes: whether the link layer is
/// up, and the leased IPv4 address, if any, as its four octets packed into
/// 32 bits.
#[derive(Clone, Copy, PartialEq, Eq, Structural, Debug)]
pub struct StackProbe {
    pub link_up: bool,
    pub address: Option<u32>,
}

/// The readiness gate's two sequential polling phases, then `Ready`.
#[derive(Clone, Copy, PartialEq, Eq, Structural, Debug)]
pub enum GatePhase {
    /// Waiting for the link layer to come up.
    WaitLink,
    /// Waiting for an IPv4 address lease.
    WaitAddress,
    /// A handle has been published.
    Ready,
}

/// Proof that the network stack was observed usable: the readiness gate
/// publishes one only from a probe that showed the link up and an address
/// leased, so no consumer can hold one before both conditions held.
#[derive(Clone, Copy, PartialEq, Eq, Structural, Debug)]
pub struct NetworkHandle {
    addr: u32,
}

impl NetworkHandle {
    /// The leased IPv4 address the handle was published with.
    pub closed spec fn spec_addr(self) -> u32 {
        self.addr
    }

    /// The handle published for a leased address. Only the readiness gate
    /// can build one: the address field is private to this module.
    pub closed spec fn spec_published(addr: u32) -> NetworkHandle {
        NetworkHandle { addr }
    }

    pub fn address(&self) -> (a: u32)
        ensures
            a == self.spec_addr(),
    {
        self.addr
    }
}

/// One gate transition: the phase entered, the delay before the next poll,
/// and the handle, if one was published.
#[derive(Clone, Copy, PartialEq, Eq, Structural, Debug)]
pub struct GateStep {
    pub phase: GatePhase,
    pub delay_ms: u64,
    pub handle: Option<NetworkHandle>,
}

/// The readiness gate's transition function: poll for the link first, then
/// for an address lease; publish a handle only from a probe showing both
/// at once. There is no timeout: an unready stack is polled forever.
pub open spec fn spec_gate_step(phase: GatePhase, probe: StackProbe) -> GateStep {
    match phase {
        GatePhase::WaitLink => if probe.link_up {
            GateStep { phase: GatePhase::WaitAddress, delay_ms: 0, handle: None }
        } else {
            GateStep { phase: GatePhase::WaitLink, delay_ms: POLL_INTERVAL_MS, handle: None }
        },
        GatePhase::WaitAddress => if !probe.link_up {
            GateStep { phase: GatePhase::WaitLink, delay_ms: POLL_INTERVAL_MS, handle: None }
        } else {
            match probe.address {
                None => GateStep {
                    phase: GatePhase::WaitAddress,
                    delay_ms: POLL_INTERVAL_MS,
                    handle: None,
                },
                Some(a) => GateStep {
                    phase: GatePhase::Ready,
                    delay_ms: 0,
                    handle: Some(NetworkHandle::spec_published(a)),
                },
            }
        },
        GatePhase::Ready => GateStep { phase: GatePhase::Ready, delay_ms: 0, handle: None },
    }
}

/// Advance the readiness gate by one poll of the stack.
pub fn gate_step(phase: GatePhase, probe: StackProbe) -> (r: GateStep)
    ensures
        r == spec_gate_step(phase, probe),
{
    match phase {
        GatePhase::WaitLink => if probe.link_up {
            GateStep { phase: GatePhase::WaitAddress, delay_ms: 0, handle: None }
        } else {
            GateStep { phase: GatePhase::WaitLink, delay_ms: POLL_INTERVAL_MS, handle: None }
        },
        GatePhase::WaitAddress => if !probe.link_up {
            GateStep { phase: GatePhase::WaitLink, delay_ms: POLL_INTERVAL_MS, handle: None }
        } else {
            match probe.address {
                None => GateStep {
                    phase: GatePhase::WaitAddress,
                    delay_ms: POLL_INTERVAL_MS,
                    handle: None,
                },
                Some(a) => GateStep {
                    phase: GatePhase::Ready,
                    delay_ms: 0,
                    handle: Some(NetworkHandle { addr: a }),
                },
            }
        },
        GatePhase::Ready => GateStep { phase: GatePhase::Ready, delay_ms: 0, handle: None },
    }
}

/// Law: a `NetworkHandle` is observable only when link-up and address-lease
/// were both true in the very probe it was published from, and it carries
/// that leased address.
pub proof fn lemma_handle_needs_dual_readiness(phase: GatePhase, probe: StackProbe)
    ensures
        spec_gate_step(phase, probe).handle is Some ==> probe.link_up && probe.address is Some,
        spec_gate_step(phase, probe).handle matches Some(h) ==> probe.address matches Some(a)
            && h.spec_addr() == a,
{
}

} // verus!
