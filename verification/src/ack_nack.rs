//! Acknowledgement values carried by the state-change CAN frames.

use vstd::prelude::*;

verus! {

/// Outcome of a state-change request as reported by a device.
/// On the wire, byte 0 of the frame is `0` for `Nack` and any other
/// value for `Ack`; an empty payload means `Unknown`.
#[derive(Clone, Copy, Debug, PartialEq, Eq, Structural)]
pub enum AckNack {
    Ack,
    Nack,
    Unknown,
}

impl AckNack {
    /// Decoding of a present acknowledgement byte.
    pub open spec fn spec_from_byte(b: u8) -> AckNack {
        if b == 0 {
            AckNack::Nack
        } else {
            AckNack::Ack
        }
    }

    pub fn from_byte(b: u8) -> (r: AckNack)
        ensures
            r == Self::spec_from_byte(b),
    {
        if b == 0 {
            AckNack::Nack
        } else {
            AckNack::Ack
        }
    }
}

/// Decoding of a whole state-change payload: an absent byte is an
/// `Unknown` acknowledgement.
pub open spec fn spec_state_change_ack(data: Seq<u8>) -> AckNack {
    if data.len() == 0 {
        AckNack::Unknown
    } else {
        AckNack::spec_from_byte(data[0])
    }
}

/// Decode the payload of a state-change frame (ids `0x00B` and `0x015`).
pub fn get_state_change_ack(data: &[u8]) -> (r: AckNack)
    ensures
        r == spec_state_change_ack(data@),
{
    if data.len() == 0 {
        AckNack::Unknown
    } else {
        AckNack::from_byte(data[0])
    }
}

} // verus!
