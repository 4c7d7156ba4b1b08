//! Fault reports from the battery management system and the motor
//! controller: a set of active fault flags decoded from the flag bytes
//! of a fault-report CAN frame.

use vstd::bytes::{spec_u64_from_le_bytes, u64_from_le_bytes};
use vstd::prelude::*;

verus! {

/// Zero-extension of a payload of at most eight flag bytes to the full
/// eight-byte little-endian form.
pub open spec fn spec_padded_flag_bytes(data: Seq<u8>) -> Seq<u8> {
    if data.len() >= 8 {
        data.take(8)
    } else {
        data + Seq::new((8 - data.len()) as nat, |i: int| 0u8)
    }
}

/// The set of active flags in a fault-report payload, as a 64-bit
/// mask: bit `8*j + i` is flag `i` of flag byte `j`.
pub open spec fn spec_fault_flags(data: Seq<u8>) -> u64 {
    spec_u64_from_le_bytes(spec_padded_flag_bytes(data))
}

/// Read the flag bytes of a fault-report payload into a mask,
/// ignoring anything past the eighth byte.
fn decode_fault_flags(data: &[u8]) -> (flags: u64)
    ensures
        flags == spec_fault_flags(data@),
{
    let mut padded: Vec<u8> = Vec::new();
    let n: usize = if data.len() < 8 {
        data.len()
    } else {
        8
    };
    let mut i: usize = 0;
    while i < n
        invariant
            i <= n,
            n <= data@.len(),
            n == if data@.len() < 8 {
                data@.len() as int
            } else {
                8
            },
            padded@ == data@.take(n as int).take(i as int),
        decreases n - i,
    {
        padded.push(data[i]);
        assert(data@.take(n as int).take(i + 1) =~= data@.take(n as int).take(i as int).push(
            data@[i as int],
        ));
        i = i + 1;
    }
    assert(spec_padded_flag_bytes(data@).take(n as int) =~= data@.take(n as int));
    while padded.len() < 8
        invariant
            n <= padded@.len() <= 8,
            n == if data@.len() < 8 {
                data@.len() as int
            } else {
                8
            },
            padded@ == spec_padded_flag_bytes(data@).take(padded@.len() as int),
        decreases 8 - padded@.len(),
    {
        assert(spec_padded_flag_bytes(data@).take(padded@.len() as int + 1) =~= spec_padded_flag_bytes(
            data@,
        ).take(padded@.len() as int).push(spec_padded_flag_bytes(data@)[padded@.len() as int]));
        padded.push(0);
    }
    assert(padded@ == spec_padded_flag_bytes(data@)) by {
        assert(spec_padded_flag_bytes(data@).take(8) =~= spec_padded_flag_bytes(data@));
    }
    u64_from_le_bytes(padded.as_slice())
}

/// Fault flags reported by the battery management system.  Two reports
/// are equal exactly when their sets of active flags are equal.
#[derive(Clone, Copy, Debug, PartialEq, Eq, Structural)]
pub struct BmsFaultReport {
    pub flags: u64,
}

impl BmsFaultReport {
    pub open spec fn spec_from_payload(data: Seq<u8>) -> BmsFaultReport {
        BmsFaultReport { flags: spec_fault_flags(data) }
    }

    pub fn from_payload(data: &[u8]) -> (r: BmsFaultReport)
        ensures
            r == Self::spec_from_payload(data@),
    {
        BmsFaultReport { flags: decode_fault_flags(data) }
    }
}

/// Fault flags reported by the motor controller.
#[derive(Clone, Copy, Debug, PartialEq, Eq, Structural)]
pub struct MotorControllerFaultReport {
    pub flags: u64,
}

impl MotorControllerFaultReport {
    pub open spec fn spec_from_payload(data: Seq<u8>) -> MotorControllerFaultReport {
        MotorControllerFaultReport { flags: spec_fault_flags(data) }
    }

    pub fn from_payload(data: &[u8]) -> (r: MotorControllerFaultReport)
        ensures
            r == Self::spec_from_payload(data@),
    {
        MotorControllerFaultReport { flags: decode_fault_flags(data) }
    }
}

} // verus!
