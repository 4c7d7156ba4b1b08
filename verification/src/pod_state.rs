//! The pod's operating states, their single-byte wire encoding, and the
//! legal transition graph.

use vstd::prelude::*;

verus! {

/// Operating state of the pod.  `LowVoltage` is the initial state;
/// `EmergencyBrake` and `SystemFailure` are the error states.
#[derive(Clone, Copy, Debug, PartialEq, Eq, Structural)]
pub enum PodState {
    Startup,
    LowVoltage,
    Armed,
    AutoPilot,
    Braking,
    EmergencyBrake,
    SystemFailure,
}

impl PodState {
    /// The single-byte encoding used in CAN state announcements.
    pub open spec fn spec_to_byte(self) -> u8 {
        match self {
            PodState::Startup => 0x00,
            PodState::LowVoltage => 0x01,
            PodState::Armed => 0x02,
            PodState::AutoPilot => 0x03,
            PodState::Braking => 0x04,
            PodState::EmergencyBrake => 0x05,
            PodState::SystemFailure => 0x06,
        }
    }

    pub fn to_byte(&self) -> (b: u8)
        ensures
            b == self.spec_to_byte(),
    {
        match self {
            PodState::Startup => 0x00,
            PodState::LowVoltage => 0x01,
            PodState::Armed => 0x02,
            PodState::AutoPilot => 0x03,
            PodState::Braking => 0x04,
            PodState::EmergencyBrake => 0x05,
            PodState::SystemFailure => 0x06,
        }
    }

    /// Partial inverse of `spec_to_byte`: the defined domain is
    /// `0x00 ..= 0x06`.
    pub open spec fn spec_from_byte(b: u8) -> Option<PodState> {
        match b {
            0x00 => Some(PodState::Startup),
            0x01 => Some(PodState::LowVoltage),
            0x02 => Some(PodState::Armed),
            0x03 => Some(PodState::AutoPilot),
            0x04 => Some(PodState::Braking),
            0x05 => Some(PodState::EmergencyBrake),
            0x06 => Some(PodState::SystemFailure),
            _ => None,
        }
    }

    pub fn from_byte(b: u8) -> (r: Option<PodState>)
        ensures
            r == Self::spec_from_byte(b),
    {
        match b {
            0x00 => Some(PodState::Startup),
            0x01 => Some(PodState::LowVoltage),
            0x02 => Some(PodState::Armed),
            0x03 => Some(PodState::AutoPilot),
            0x04 => Some(PodState::Braking),
            0x05 => Some(PodState::EmergencyBrake),
            0x06 => Some(PodState::SystemFailure),
            _ => None,
        }
    }

    /// True for the two error states.
    pub open spec fn spec_is_error_state(self) -> bool {
        self is EmergencyBrake || self is SystemFailure
    }

    pub fn is_error_state(&self) -> (r: bool)
        ensures
            r == self.spec_is_error_state(),
    {
        match self {
            PodState::EmergencyBrake => true,
            PodState::SystemFailure => true,
            _ => false,
        }
    }

    /// The fixed directed transition graph the devices expect.
    /// Self-transitions are not legal moves (they are handled as
    /// heartbeats before this graph is consulted), no transition leaves
    /// an error state, and `SystemFailure` is never a legal target (it
    /// is entered only on a fault report).
    pub open spec fn spec_can_transition_to(self, next: PodState) -> bool {
        match (self, next) {
            (PodState::Startup, PodState::LowVoltage) => true,
            (PodState::LowVoltage, PodState::Armed) => true,
            (PodState::Armed, PodState::AutoPilot) => true,
            (PodState::Armed, PodState::LowVoltage) => true,
            (PodState::AutoPilot, PodState::Braking) => true,
            (PodState::Braking, PodState::LowVoltage) => true,
            (_, PodState::EmergencyBrake) => !self.spec_is_error_state(),
            _ => false,
        }
    }

    pub fn can_transition_to(&self, next: &PodState) -> (r: bool)
        ensures
            r == self.spec_can_transition_to(*next),
    {
        match (self, next) {
            (PodState::Startup, PodState::LowVoltage) => true,
            (PodState::LowVoltage, PodState::Armed) => true,
            (PodState::Armed, PodState::AutoPilot) => true,
            (PodState::Armed, PodState::LowVoltage) => true,
            (PodState::AutoPilot, PodState::Braking) => true,
            (PodState::Braking, PodState::LowVoltage) => true,
            (_, PodState::EmergencyBrake) => !self.is_error_state(),
            _ => false,
        }
    }
}

/// Law: the byte encoding of the pod states is a bijection with its
/// defined domain.  Decoding a byte of the defined domain and
/// re-encoding it is the identity, and decoding always inverts
/// encoding.
pub proof fn lemma_pod_state_byte_round_trip()
    ensures
        forall|b: u8|
            (#[trigger] PodState::spec_from_byte(b)) matches Some(s) ==> s.spec_to_byte() == b,
        forall|s: PodState| PodState::spec_from_byte(#[trigger] s.spec_to_byte()) == Some(s),
{
}

/// Law: no transition leaves an error state, and no legal move is a
/// self-transition.
pub proof fn lemma_error_states_are_terminal()
    ensures
        forall|c: PodState, n: PodState|
            c.spec_is_error_state() ==> !(#[trigger] c.spec_can_transition_to(n)),
        forall|c: PodState| !(#[trigger] c.spec_can_transition_to(c)),
{
}

} // verus!
