//! The operator (UDP) session: owner of the pod-state machine.
//!
//! Every tick the session reads one operator request, applies the
//! transition decision table, and emits one [`PodStateMessage`];
//! between ticks it drains its inbox of messages from the other
//! tasks.  Each step is a pure transition function (`spec_*_step`)
//! mirrored exactly by the executable method.

use crate::messages::{CanMessage, Errno, PodStateMessage, SocketAddress, UDPMessage};
use crate::pod_data::PodData;
use crate::pod_state::PodState;
use vstd::prelude::*;

verus! {

/// The server's view of the operator link.  `Recovery` is sticky for
/// the rest of the session: operator state-change requests are
/// ignored, and the link never returns to `Connected`.
#[derive(Clone, Copy, Debug, PartialEq, Eq, Structural)]
pub enum SessionState {
    Startup,
    Disconnected,
    Connected,
    Recovery,
}

/// What the decision table says about one operator request.
#[derive(Clone, Copy, Debug, PartialEq, Eq, Structural)]
pub enum RequestDecision {
    /// The pod is in an error state; the request is ignored and the
    /// session keeps emitting recovery telemetry.
    IgnoreErrorState,
    /// The request repeats the current or the pending state: a
    /// heartbeat.
    Heartbeat,
    /// A legal new transition: record the target and command the pod.
    Begin(PodState),
    /// An illegal request: the session enters recovery.
    Invalid,
}

/// The transition decision table over (current `c`, pending `n`,
/// requested `r`), evaluated top to bottom.
pub open spec fn spec_evaluate_request(c: PodState, n: PodState, r: PodState) -> RequestDecision {
    if c.spec_is_error_state() {
        RequestDecision::IgnoreErrorState
    } else if r == c && n == c {
        RequestDecision::Heartbeat
    } else if r == c {
        // A transition to a different target is already in flight.
        RequestDecision::Invalid
    } else if !c.spec_can_transition_to(r) {
        RequestDecision::Invalid
    } else if r == n {
        RequestDecision::Heartbeat
    } else if n == c {
        RequestDecision::Begin(r)
    } else {
        RequestDecision::Invalid
    }
}

/// Decide one operator request against the current and pending pod
/// states.
pub fn evaluate_request(c: &PodState, n: &PodState, r: &PodState) -> (d: RequestDecision)
    ensures
        d == spec_evaluate_request(*c, *n, *r),
{
    if c.is_error_state() {
        RequestDecision::IgnoreErrorState
    } else if *r == *c && *n == *c {
        RequestDecision::Heartbeat
    } else if *r == *c {
        RequestDecision::Invalid
    } else if !c.can_transition_to(r) {
        RequestDecision::Invalid
    } else if *r == *n {
        RequestDecision::Heartbeat
    } else if *n == *c {
        RequestDecision::Begin(*r)
    } else {
        RequestDecision::Invalid
    }
}

/// Law: the decision table only begins transitions the graph allows.
/// Every accepted operator transition from `c` to `r` satisfies
/// `c.can_transition_to(r)`.
pub proof fn lemma_accepted_transition_is_legal(c: PodState, n: PodState, r: PodState)
    ensures
        spec_evaluate_request(c, n, r) matches RequestDecision::Begin(t) ==> t == r
            && c.spec_can_transition_to(r),
{
}

/// The per-tick state of the operator session.
#[derive(Clone, Copy, Debug, PartialEq, Eq, Structural)]
pub struct UdpSession {
    /// State of the operator link.
    pub session_state: SessionState,
    /// The pod state last committed by the devices.
    pub current_pod_state: PodState,
    /// The target of the outstanding transition, equal to
    /// `current_pod_state` when the machine is idle.
    pub next_pod_state: PodState,
    /// The error code reported to the operator.
    pub errno: Errno,
    /// Consecutive operator read timeouts seen so far.
    pub timeout_counter: u32,
    /// How many consecutive timeouts force recovery.
    pub max_udp_timeouts: u32,
    /// The bound operator endpoint while one exists.
    pub remote: Option<SocketAddress>,
    /// The latest telemetry snapshot, absent until the first push.
    pub pod_data: Option<PodData>,
    /// Timestamp (milliseconds) of the latest snapshot.
    pub current_telemetry_timestamp: i64,
    /// Timestamp the operator last echoed back.
    pub last_sent_telemetry_timestamp: i64,
}

/// Entering recovery: sticky, and the error code is recorded only on
/// entry (a later, second cause never overwrites the first).
pub open spec fn spec_enter_recovery(s: UdpSession, e: Errno) -> UdpSession {
    UdpSession {
        session_state: SessionState::Recovery,
        errno: if s.session_state is Recovery {
            s.errno
        } else {
            e
        },
        ..s
    }
}

impl UdpSession {
    /// Basic well-formedness: the timeout budget is positive, the
    /// counter never overtakes it, and a connected session has a bound
    /// peer.
    pub open spec fn wf(self) -> bool {
        &&& self.max_udp_timeouts >= 1
        &&& self.timeout_counter <= self.max_udp_timeouts
        &&& (self.session_state is Connected ==> self.remote is Some)
    }

    /// The session as the process starts: waiting for startup to
    /// complete, pod idle in `LowVoltage`, no peer, no telemetry.
    pub open spec fn spec_new(max_udp_timeouts: u32) -> UdpSession {
        UdpSession {
            session_state: SessionState::Startup,
            current_pod_state: PodState::LowVoltage,
            next_pod_state: PodState::LowVoltage,
            errno: Errno::NoError,
            timeout_counter: 0,
            max_udp_timeouts,
            remote: None,
            pod_data: None,
            current_telemetry_timestamp: 0,
            last_sent_telemetry_timestamp: 0,
        }
    }

    pub fn new(max_udp_timeouts: u32) -> (r: UdpSession)
        requires
            max_udp_timeouts >= 1,
        ensures
            r == Self::spec_new(max_udp_timeouts),
            r.wf(),
    {
        UdpSession {
            session_state: SessionState::Startup,
            current_pod_state: PodState::LowVoltage,
            next_pod_state: PodState::LowVoltage,
            errno: Errno::NoError,
            timeout_counter: 0,
            max_udp_timeouts,
            remote: None,
            pod_data: None,
            current_telemetry_timestamp: 0,
            last_sent_telemetry_timestamp: 0,
        }
    }
}

/// One operator request received: reset the timeout counter, advance
/// the telemetry watermark to the operator's echo, and apply the
/// decision table (ignored entirely while recovering).  The second
/// component is the command owed to the CAN task.
pub open spec fn spec_desktop_step(pre: UdpSession, requested: PodState, echo_ts: i64) -> (
    UdpSession,
    Option<CanMessage>,
) {
    let s = UdpSession { timeout_counter: 0, last_sent_telemetry_timestamp: echo_ts, ..pre };
    if pre.session_state is Recovery {
        (s, None)
    } else {
        match spec_evaluate_request(pre.current_pod_state, pre.next_pod_state, requested) {
            RequestDecision::IgnoreErrorState => (s, None),
            RequestDecision::Heartbeat => (s, None),
            RequestDecision::Begin(t) => (
                UdpSession { next_pod_state: t, ..s },
                Some(CanMessage::ChangeState(t)),
            ),
            RequestDecision::Invalid => (
                spec_enter_recovery(s, Errno::InvalidTransitionRequest),
                None,
            ),
        }
    }
}

/// One read timeout: count it, and force recovery with
/// `ControllerTimeout` once the budget of consecutive timeouts is
/// used up.
pub open spec fn spec_timeout_step(pre: UdpSession) -> UdpSession {
    if pre.timeout_counter + 1 >= pre.max_udp_timeouts {
        spec_enter_recovery(
            UdpSession { timeout_counter: pre.max_udp_timeouts, ..pre },
            Errno::ControllerTimeout,
        )
    } else {
        UdpSession { timeout_counter: (pre.timeout_counter + 1) as u32, ..pre }
    }
}

/// One inbox message from another task.
pub open spec fn spec_message_step(pre: UdpSession, msg: UDPMessage) -> UdpSession {
    match msg {
        UDPMessage::ConnectToHost(addr) => if pre.session_state is Disconnected {
            UdpSession { session_state: SessionState::Connected, remote: Some(addr), ..pre }
        } else {
            pre
        },
        UDPMessage::DisconnectFromHost => UdpSession {
            session_state: SessionState::Recovery,
            remote: None,
            ..pre
        },
        UDPMessage::StartupComplete => if pre.session_state is Startup {
            UdpSession { session_state: SessionState::Disconnected, ..pre }
        } else {
            pre
        },
        UDPMessage::PodStateChanged(s) => if s.spec_is_error_state() {
            // A pod fault: no transition stays pending out of an error
            // state, and recovery is forced within the tick.
            spec_enter_recovery(
                UdpSession { current_pod_state: s, next_pod_state: s, ..pre },
                Errno::GeneralPodFailure,
            )
        } else {
            UdpSession { current_pod_state: s, ..pre }
        },
        UDPMessage::StateChangeNacked => spec_enter_recovery(
            UdpSession { next_pod_state: pre.current_pod_state, ..pre },
            Errno::InvalidTransitionRequest,
        ),
        UDPMessage::TelemetryDataAvailable(d, ts) => UdpSession {
            pod_data: Some(d),
            current_telemetry_timestamp: ts,
            ..pre
        },
    }
}

/// The periodic outbound message: the telemetry snapshot rides along
/// exactly when one exists that is newer than the operator's last
/// echo.
pub open spec fn spec_outbound(s: UdpSession) -> PodStateMessage {
    PodStateMessage {
        current_state: s.current_pod_state,
        next_state: s.next_pod_state,
        errno: s.errno,
        recovery: s.session_state is Recovery,
        telemetry: if s.current_telemetry_timestamp > s.last_sent_telemetry_timestamp {
            s.pod_data
        } else {
            None
        },
        telemetry_timestamp: s.current_telemetry_timestamp,
    }
}

impl UdpSession {
    /// Apply one operator `DesktopStateMessage` carrying the requested
    /// state and the echoed telemetry timestamp; the result is the
    /// command owed to the CAN task, if any.
    pub fn handle_desktop_message(&mut self, requested: PodState, echo_ts: i64) -> (cmd: Option<
        CanMessage,
    >)
        ensures
            (*final(self), cmd) == spec_desktop_step(*old(self), requested, echo_ts),
            old(self).wf() ==> final(self).wf(),
    {
        self.timeout_counter = 0;
        self.last_sent_telemetry_timestamp = echo_ts;
        if matches!(self.session_state, SessionState::Recovery) {
            return None;
        }
        match evaluate_request(&self.current_pod_state, &self.next_pod_state, &requested) {
            RequestDecision::IgnoreErrorState => None,
            RequestDecision::Heartbeat => None,
            RequestDecision::Begin(t) => {
                self.next_pod_state = t;
                Some(CanMessage::ChangeState(t))
            },
            RequestDecision::Invalid => {
                self.session_state = SessionState::Recovery;
                self.errno = Errno::InvalidTransitionRequest;
                None
            },
        }
    }

    /// Count one operator read timeout.
    pub fn handle_timeout(&mut self)
        ensures
            *final(self) == spec_timeout_step(*old(self)),
            old(self).wf() ==> final(self).wf(),
    {
        if self.timeout_counter < u32::MAX && self.timeout_counter + 1 < self.max_udp_timeouts {
            self.timeout_counter = self.timeout_counter + 1;
        } else {
            self.timeout_counter = self.max_udp_timeouts;
            if !matches!(self.session_state, SessionState::Recovery) {
                self.errno = Errno::ControllerTimeout;
            }
            self.session_state = SessionState::Recovery;
        }
    }

    /// Apply one message from the session's inbox.
    pub fn handle_message(&mut self, msg: UDPMessage)
        ensures
            *final(self) == spec_message_step(*old(self), msg),
            old(self).wf() ==> final(self).wf(),
    {
        match msg {
            UDPMessage::ConnectToHost(addr) => {
                if matches!(self.session_state, SessionState::Disconnected) {
                    self.session_state = SessionState::Connected;
                    self.remote = Some(addr);
                }
            },
            UDPMessage::DisconnectFromHost => {
                self.session_state = SessionState::Recovery;
                self.remote = None;
            },
            UDPMessage::StartupComplete => {
                if matches!(self.session_state, SessionState::Startup) {
                    self.session_state = SessionState::Disconnected;
                }
            },
            UDPMessage::PodStateChanged(s) => {
                if s.is_error_state() {
                    self.current_pod_state = s;
                    self.next_pod_state = s;
                    if !matches!(self.session_state, SessionState::Recovery) {
                        self.errno = Errno::GeneralPodFailure;
                    }
                    self.session_state = SessionState::Recovery;
                } else {
                    self.current_pod_state = s;
                }
            },
            UDPMessage::StateChangeNacked => {
                self.next_pod_state = self.current_pod_state;
                if !matches!(self.session_state, SessionState::Recovery) {
                    self.errno = Errno::InvalidTransitionRequest;
                }
                self.session_state = SessionState::Recovery;
            },
            UDPMessage::TelemetryDataAvailable(d, ts) => {
                self.pod_data = Some(d);
                self.current_telemetry_timestamp = ts;
            },
        }
    }

    /// Build the next outbound message to the operator.
    pub fn next_outbound(&self) -> (m: PodStateMessage)
        ensures
            m == spec_outbound(*self),
    {
        PodStateMessage {
            current_state: self.current_pod_state,
            next_state: self.next_pod_state,
            errno: self.errno,
            recovery: matches!(self.session_state, SessionState::Recovery),
            telemetry: if self.current_telemetry_timestamp > self.last_sent_telemetry_timestamp {
                self.pod_data
            } else {
                None
            },
            telemetry_timestamp: self.current_telemetry_timestamp,
        }
    }
}

/// Law: a tick leaves the machine idle (`current == next`) unless a
/// `ChangeState(next)` command goes out on the CAN queue with it, or
/// the same transition was already outstanding before the tick (its
/// command went out when it began, and no acknowledgement has been
/// seen since).
pub proof fn lemma_pending_transition_has_outstanding_command(
    pre: UdpSession,
    requested: PodState,
    echo_ts: i64,
)
    ensures
        ({
            let (post, cmd) = spec_desktop_step(pre, requested, echo_ts);
            post.next_pod_state != post.current_pod_state ==> {
                ||| cmd == Some(CanMessage::ChangeState(post.next_pod_state))
                ||| (pre.next_pod_state == post.next_pod_state && pre.current_pod_state
                    == post.current_pod_state && pre.next_pod_state != pre.current_pod_state)
            }
        }),
{
}

/// Law: a committed acknowledgement of the pending target leaves the
/// machine idle again.
pub proof fn lemma_ack_commits_pending_transition(pre: UdpSession)
    ensures
        ({
            let post = spec_message_step(pre, UDPMessage::PodStateChanged(pre.next_pod_state));
            post.current_pod_state == post.next_pod_state
        }),
{
}

/// Law: recovery is sticky.  Once the session state is `Recovery`, no
/// step of the session returns it to `Connected` (or to any other
/// state) within the same session.
pub proof fn lemma_recovery_is_sticky(
    pre: UdpSession,
    requested: PodState,
    echo_ts: i64,
    msg: UDPMessage,
)
    ensures
        pre.session_state is Recovery ==> spec_desktop_step(
            pre,
            requested,
            echo_ts,
        ).0.session_state is Recovery,
        pre.session_state is Recovery ==> spec_timeout_step(pre).session_state is Recovery,
        pre.session_state is Recovery ==> spec_message_step(pre, msg).session_state is Recovery,
{
}

/// Law: a pod error state announced by the CAN task forces the
/// session into recovery, reporting `GeneralPodFailure`, within the
/// same tick.
pub proof fn lemma_pod_fault_forces_recovery(pre: UdpSession, s: PodState)
    requires
        s.spec_is_error_state(),
    ensures
        spec_message_step(pre, UDPMessage::PodStateChanged(s)).session_state is Recovery,
        pre.session_state !is Recovery ==> spec_message_step(
            pre,
            UDPMessage::PodStateChanged(s),
        ).errno == Errno::GeneralPodFailure,
{
}

/// The session after `k` consecutive read timeouts with nothing else
/// in between.
pub open spec fn spec_timeouts(pre: UdpSession, k: nat) -> UdpSession
    decreases k,
{
    if k == 0 {
        pre
    } else {
        spec_timeout_step(spec_timeouts(pre, (k - 1) as nat))
    }
}

proof fn lemma_timeouts_invariant(pre: UdpSession, k: nat)
    requires
        pre.wf(),
        pre.timeout_counter == 0,
    ensures
        ({
            let s = spec_timeouts(pre, k);
            &&& s.wf()
            &&& s.max_udp_timeouts == pre.max_udp_timeouts
            &&& if k < pre.max_udp_timeouts {
                s.timeout_counter == k && s.session_state == pre.session_state && s.errno
                    == pre.errno
            } else {
                s.session_state is Recovery && (pre.session_state !is Recovery ==> s.errno
                    == Errno::ControllerTimeout)
            }
        }),
    decreases k,
{
    if k > 0 {
        lemma_timeouts_invariant(pre, (k - 1) as nat);
    }
}

/// Law: after `max_udp_timeouts` consecutive operator read timeouts
/// the session is in recovery (with `ControllerTimeout` reported,
/// unless it was already recovering for an earlier cause) before the
/// next outbound message is built.
pub proof fn lemma_consecutive_timeouts_force_recovery(pre: UdpSession, k: nat)
    requires
        pre.wf(),
        pre.timeout_counter == 0,
        k >= pre.max_udp_timeouts,
    ensures
        spec_timeouts(pre, k).session_state is Recovery,
        spec_outbound(spec_timeouts(pre, k)).recovery,
        pre.session_state !is Recovery ==> spec_outbound(spec_timeouts(pre, k)).errno
            == Errno::ControllerTimeout,
{
    lemma_timeouts_invariant(pre, k);
}

} // verus!
