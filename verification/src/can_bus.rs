//! The CAN bus task's decisions: which frame to heartbeat each tick,
//! and what to forward when a decoded frame arrives.
//!
//! The socket edge reads and writes the frames; this module owns the
//! task's two state mirrors (the operator-requested pod state and the
//! state last acknowledged by the battery management system) and every
//! decision taken on them.

use crate::ack_nack::AckNack;
use crate::can_command::CanCommand;
use crate::can_frame::{encode_pod_state, CanFrame};
use crate::messages::{CanMessage, UDPMessage};
use crate::pod_state::PodState;
use vstd::prelude::*;

verus! {

/// What the bus task emits on one tick.
#[derive(Clone, Copy, Debug, PartialEq, Eq, Structural)]
pub enum CanOutbound {
    /// The pod and the battery management system both report
    /// autopilot: emit the Roboteq throttle frame.
    Throttle,
    /// Otherwise: announce the requested pod state.
    Announce(PodState),
}

/// Per-tick state of the CAN bus task.
#[derive(Clone, Copy, Debug, PartialEq, Eq, Structural)]
pub struct CanBusState {
    /// The pod state last requested by the operator session.
    pub requested_pod_state: PodState,
    /// The pod state last acknowledged by the battery management
    /// system.
    pub bms_state: PodState,
}

/// Forwarding decision for one decoded inbound frame: the new task
/// state and the message owed to the operator session.  A BMS `Ack`
/// commits the requested state; a BMS `Nack` reports the refusal; an
/// absent acknowledgement byte is treated as no acknowledgement and
/// left to the timeout; every other command changes nothing here (it
/// still goes to the aggregator whole).
pub open spec fn spec_bus_frame_step(pre: CanBusState, cmd: CanCommand) -> (
    CanBusState,
    Option<UDPMessage>,
) {
    match cmd {
        CanCommand::BmsStateChange(ack) => match ack {
            AckNack::Ack => (
                CanBusState { bms_state: pre.requested_pod_state, ..pre },
                Some(UDPMessage::PodStateChanged(pre.requested_pod_state)),
            ),
            AckNack::Nack => (pre, Some(UDPMessage::StateChangeNacked)),
            AckNack::Unknown => (pre, None),
        },
        _ => (pre, None),
    }
}

impl CanBusState {
    /// The bus task as the process starts: both mirrors at the initial
    /// pod state.
    pub open spec fn spec_new() -> CanBusState {
        CanBusState { requested_pod_state: PodState::LowVoltage, bms_state: PodState::LowVoltage }
    }

    pub fn new() -> (r: CanBusState)
        ensures
            r == Self::spec_new(),
    {
        CanBusState { requested_pod_state: PodState::LowVoltage, bms_state: PodState::LowVoltage }
    }

    /// Apply one command drained from the operator session's queue.
    pub fn handle_change_state(&mut self, msg: CanMessage)
        ensures
            final(self).requested_pod_state == msg->ChangeState_0,
            final(self).bms_state == old(self).bms_state,
    {
        match msg {
            CanMessage::ChangeState(s) => {
                self.requested_pod_state = s;
            },
        }
    }

    /// Apply one decoded inbound frame; the result is the message owed
    /// to the operator session, if any.
    pub fn handle_decoded_frame(&mut self, cmd: &CanCommand) -> (fwd: Option<UDPMessage>)
        ensures
            (*final(self), fwd) == spec_bus_frame_step(*old(self), *cmd),
    {
        match cmd {
            CanCommand::BmsStateChange(ack) => match ack {
                AckNack::Ack => {
                    self.bms_state = self.requested_pod_state;
                    Some(UDPMessage::PodStateChanged(self.requested_pod_state))
                },
                AckNack::Nack => Some(UDPMessage::StateChangeNacked),
                AckNack::Unknown => None,
            },
            _ => None,
        }
    }

    /// What this tick's outbound frame is: the Roboteq throttle
    /// exactly when both the requested state and the acknowledged BMS
    /// state are `AutoPilot`, else a pod-state announcement of the
    /// requested state.
    pub open spec fn spec_select_outbound(self) -> CanOutbound {
        if self.requested_pod_state is AutoPilot && self.bms_state is AutoPilot {
            CanOutbound::Throttle
        } else {
            CanOutbound::Announce(self.requested_pod_state)
        }
    }

    pub fn select_outbound(&self) -> (r: CanOutbound)
        ensures
            r == self.spec_select_outbound(),
    {
        if matches!(self.requested_pod_state, PodState::AutoPilot) && matches!(
            self.bms_state,
            PodState::AutoPilot,
        ) {
            CanOutbound::Throttle
        } else {
            CanOutbound::Announce(self.requested_pod_state)
        }
    }

    /// The announcement frame for this tick, when the tick is not a
    /// throttle tick.
    pub fn announcement_frame(&self) -> (f: Option<CanFrame>)
        ensures
            match self.spec_select_outbound() {
                CanOutbound::Throttle => f is None,
                CanOutbound::Announce(s) => f matches Some(fr) && fr.id == 0 && fr.data@ == seq![
                    s.spec_to_byte(),
                ] && fr.wf(),
            },
    {
        match self.select_outbound() {
            CanOutbound::Throttle => None,
            CanOutbound::Announce(s) => Some(encode_pod_state(&s)),
        }
    }
}

} // verus!
