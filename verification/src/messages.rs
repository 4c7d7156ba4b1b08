//! The complete inter-task message protocol, and the small plain
//! value types the messages carry.

use crate::pod_data::PodData;
use crate::pod_state::PodState;
use vstd::prelude::*;

verus! {

/// An IPv4 address as four plain octets.
#[derive(Clone, Copy, Debug, PartialEq, Eq, Structural)]
pub struct Ipv4Address {
    pub a: u8,
    pub b: u8,
    pub c: u8,
    pub d: u8,
}

impl Ipv4Address {
    pub fn new(a: u8, b: u8, c: u8, d: u8) -> (r: Ipv4Address)
        ensures
            r == (Ipv4Address { a, b, c, d }),
    {
        Ipv4Address { a, b, c, d }
    }
}

/// An IPv4 socket address.
#[derive(Clone, Copy, Debug, PartialEq, Eq, Structural)]
pub struct SocketAddress {
    pub ip: Ipv4Address,
    pub port: u16,
}

impl SocketAddress {
    pub fn new(ip: Ipv4Address, port: u16) -> (r: SocketAddress)
        ensures
            r == (SocketAddress { ip, port }),
    {
        SocketAddress { ip, port }
    }
}

/// Error codes reported to the operator in every outbound session
/// message.
#[derive(Clone, Copy, Debug, PartialEq, Eq, Structural)]
pub enum Errno {
    NoError,
    GeneralPodFailure,
    InvalidTransitionRequest,
    ControllerTimeout,
}

impl Errno {
    /// The wire value of the error code.
    pub open spec fn spec_to_byte(self) -> u8 {
        match self {
            Errno::NoError => 0,
            Errno::GeneralPodFailure => 1,
            Errno::InvalidTransitionRequest => 2,
            Errno::ControllerTimeout => 3,
        }
    }

    pub fn to_byte(&self) -> (b: u8)
        ensures
            b == self.spec_to_byte(),
    {
        match self {
            Errno::NoError => 0,
            Errno::GeneralPodFailure => 1,
            Errno::InvalidTransitionRequest => 2,
            Errno::ControllerTimeout => 3,
        }
    }
}

/// Messages into the operator (UDP) session task.
#[derive(Clone, Copy, Debug, PartialEq, Eq, Structural)]
pub enum UDPMessage {
    /// From the TCP acceptor: the operator at this address completed a
    /// handshake; bind it as the UDP peer.
    ConnectToHost(SocketAddress),
    /// From the TCP acceptor: the operator asked to disconnect.
    DisconnectFromHost,
    /// From the TCP acceptor: process startup is complete.
    StartupComplete,
    /// From the CAN task: the pod committed this state (a state-change
    /// acknowledgement, or a fault state).
    PodStateChanged(PodState),
    /// From the CAN task: the pod refused the outstanding state-change
    /// request.
    StateChangeNacked,
    /// From the aggregator: a fresh telemetry snapshot and its
    /// timestamp (milliseconds).
    TelemetryDataAvailable(PodData, i64),
}

/// Messages into the CAN bus task.
#[derive(Clone, Copy, Debug, PartialEq, Eq, Structural)]
pub enum CanMessage {
    /// From the operator session: request the pod to move to this
    /// state; the bus task heartbeats it until it changes.
    ChangeState(PodState),
}

/// Messages into the TCP acceptor task.
#[derive(Clone, Copy, Debug, PartialEq, Eq, Structural)]
pub enum TcpMessage {
    /// The session entered recovery; refuse new handshakes.
    EnteringRecovery,
    /// Recovery finished; a new operator session may begin.
    RecoveryComplete,
}

/// The periodic message to the operator: current and pending pod
/// state, the error code, whether the session is recovering, and the
/// telemetry snapshot when one newer than the operator's last echo
/// exists.
#[derive(Clone, Copy, Debug, PartialEq, Eq, Structural)]
pub struct PodStateMessage {
    pub current_state: PodState,
    pub next_state: PodState,
    pub errno: Errno,
    pub recovery: bool,
    pub telemetry: Option<PodData>,
    pub telemetry_timestamp: i64,
}

} // verus!
