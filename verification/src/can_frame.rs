//! The CAN frame codec: the mapping between raw frames (11-bit
//! identifier plus 0–8 payload bytes) and [`CanCommand`] values.
//!
//! All multi-byte scalars on the bus are 4-byte little-endian IEEE-754
//! floats; the codec moves their raw bit patterns (`u32`) and leaves
//! the float interpretation to the callers.

use crate::ack_nack::{get_state_change_ack, spec_state_change_ack, AckNack};
use crate::can_command::CanCommand;
use crate::fault_report::{BmsFaultReport, MotorControllerFaultReport};
use crate::pod_state::PodState;
use vstd::bytes::{
    lemma_auto_spec_u32_to_from_le_bytes, lemma_auto_spec_u64_to_from_le_bytes,
    spec_u32_from_le_bytes, spec_u32_to_le_bytes, spec_u64_to_le_bytes, u32_to_le_bytes,
    u64_to_le_bytes,
};
use vstd::prelude::*;

verus! {

/// A raw CAN frame: an 11-bit identifier and up to eight payload
/// bytes.  The socket edge converts between this and the bus's own
/// frame type; announcements are emitted as standard (non-extended,
/// non-RTR) data frames.
#[derive(Clone, Debug)]
pub struct CanFrame {
    pub id: u16,
    pub data: Vec<u8>,
}

impl CanFrame {
    /// An identifier that fits in 11 bits and a payload that fits in a
    /// classical CAN data field.
    pub open spec fn wf(self) -> bool {
        self.id < 0x800 && self.data@.len() <= 8
    }
}

/// A frame whose payload is shorter than its identifier requires.
/// The offending frame is dropped and the bus task carries on.
#[derive(Clone, Copy, Debug, PartialEq, Eq, Structural)]
pub enum CanDecodeError {
    ShortPayload,
}

/// Identifiers whose payload is two 4-byte floats, in bytes [0..4) and
/// [4..8).
pub open spec fn spec_is_two_float_id(id: u16) -> bool {
    id == 0x001 || id == 0x002 || id == 0x00C || id == 0x00D || id == 0x016 || id == 0x017
        || id == 0x040 || id == 0x041
}

/// Identifiers whose payload is one 4-byte float, in bytes [0..4).
pub open spec fn spec_is_one_float_id(id: u16) -> bool {
    id == 0x00E || id == 0x01F || id == 0x020 || id == 0x021 || id == 0x022 || id == 0x030
        || id == 0x031 || id == 0x032
}

/// Identifiers of the state-change acknowledgement frames.
pub open spec fn spec_is_ack_id(id: u16) -> bool {
    id == 0x00B || id == 0x015
}

/// Identifiers of the fault-report frames.
pub open spec fn spec_is_fault_id(id: u16) -> bool {
    id == 0x00A || id == 0x014
}

/// The identifiers the decode table knows; anything else decodes to
/// `CanCommand::Unknown`.
pub open spec fn spec_known_id(id: u16) -> bool {
    spec_is_two_float_id(id) || spec_is_one_float_id(id) || spec_is_ack_id(id)
        || spec_is_fault_id(id)
}

/// How many payload bytes an identifier requires before it can be
/// decoded.
pub open spec fn spec_required_len(id: u16) -> nat {
    if spec_is_two_float_id(id) {
        8
    } else if spec_is_one_float_id(id) {
        4
    } else {
        0
    }
}

/// The decode table, applied to a payload that is long enough.
pub open spec fn spec_decode_sized(id: u16, data: Seq<u8>) -> CanCommand {
    let f1 = spec_u32_from_le_bytes(data.subrange(0, 4));
    let f2 = spec_u32_from_le_bytes(data.subrange(4, 8));
    match id {
        0x001 => CanCommand::BmsHealthCheck { battery_pack_current: f1, cell_temperature: f2 },
        0x002 => CanCommand::MotorControllerHealthCheck { igbt_temp: f1, motor_voltage: f2 },
        0x00A => CanCommand::BmsFaultReport(BmsFaultReport::spec_from_payload(data)),
        0x00B => CanCommand::BmsStateChange(spec_state_change_ack(data)),
        0x00C => CanCommand::BmsData1 { battery_pack_voltage: f1, state_of_charge: f2 },
        0x00D => CanCommand::BmsData2 { buck_temperature: f1, bms_current: f2 },
        0x00E => CanCommand::BmsData3 { link_cap_voltage: f1 },
        0x014 => CanCommand::MotorControllerFaultReport(
            MotorControllerFaultReport::spec_from_payload(data),
        ),
        0x015 => CanCommand::MotorControllerStateChange(spec_state_change_ack(data)),
        0x016 => CanCommand::MotorControllerData1 { mc_pod_speed: f1, motor_current: f2 },
        0x017 => CanCommand::MotorControllerData2 { battery_current: f1, battery_voltage: f2 },
        0x01F => CanCommand::PodSpeed { pod_speed: f1 },
        0x020 => CanCommand::PressureHigh(f1),
        0x021 => CanCommand::PressureLow1(f1),
        0x022 => CanCommand::PressureLow2(f1),
        0x030 => CanCommand::Current5V(f1),
        0x031 => CanCommand::Current12V(f1),
        0x032 => CanCommand::Current24V(f1),
        0x040 => CanCommand::Torchic1 { temp_1: f1, temp_2: f2 },
        0x041 => CanCommand::Torchic2 { temp_1: f1, temp_2: f2 },
        _ => CanCommand::Unknown(id),
    }
}

/// What decoding a frame yields: a command for every identifier, or a
/// decode fault when the payload is shorter than the identifier
/// requires.
pub open spec fn spec_decode(id: u16, data: Seq<u8>) -> Result<CanCommand, CanDecodeError> {
    if data.len() < spec_required_len(id) {
        Err(CanDecodeError::ShortPayload)
    } else {
        Ok(spec_decode_sized(id, data))
    }
}

/// Relies on `byteorder::LittleEndian::read_u32`: reads bytes [0..4)
/// of the buffer as an unsigned 32-bit little-endian integer (panics
/// only on a buffer shorter than four bytes).
#[verifier::external_body]
fn read_u32_le(data: &[u8]) -> (r: u32)
    requires
        data@.len() >= 4,
    ensures
        r == spec_u32_from_le_bytes(data@.subrange(0, 4)),
{
    <byteorder::LittleEndian as byteorder::ByteOrder>::read_u32(data)
}

/// The float bits in payload bytes [0..4).
fn first_float_bits(data: &[u8]) -> (r: u32)
    requires
        data@.len() >= 4,
    ensures
        r == spec_u32_from_le_bytes(data@.subrange(0, 4)),
{
    read_u32_le(data)
}

/// The float bits in payload bytes [4..8).
fn second_float_bits(data: &[u8]) -> (r: u32)
    requires
        data@.len() >= 8,
    ensures
        r == spec_u32_from_le_bytes(data@.subrange(4, 8)),
{
    let tail = &data[4..8];
    assert(tail@.subrange(0, 4) =~= data@.subrange(4, 8));
    read_u32_le(tail)
}

/// Decode a raw frame by its identifier, per the device id table.
pub fn decode_frame(id: u16, data: &[u8]) -> (r: Result<CanCommand, CanDecodeError>)
    ensures
        r == spec_decode(id, data@),
{
    if id == 0x001 || id == 0x002 || id == 0x00C || id == 0x00D || id == 0x016 || id == 0x017
        || id == 0x040 || id == 0x041 {
        if data.len() < 8 {
            return Err(CanDecodeError::ShortPayload);
        }
        let f1 = first_float_bits(data);
        let f2 = second_float_bits(data);
        Ok(
            match id {
                0x001 => CanCommand::BmsHealthCheck {
                    battery_pack_current: f1,
                    cell_temperature: f2,
                },
                0x002 => CanCommand::MotorControllerHealthCheck {
                    igbt_temp: f1,
                    motor_voltage: f2,
                },
                0x00C => CanCommand::BmsData1 { battery_pack_voltage: f1, state_of_charge: f2 },
                0x00D => CanCommand::BmsData2 { buck_temperature: f1, bms_current: f2 },
                0x016 => CanCommand::MotorControllerData1 { mc_pod_speed: f1, motor_current: f2 },
                0x017 => CanCommand::MotorControllerData2 {
                    battery_current: f1,
                    battery_voltage: f2,
                },
                0x040 => CanCommand::Torchic1 { temp_1: f1, temp_2: f2 },
                _ => CanCommand::Torchic2 { temp_1: f1, temp_2: f2 },
            },
        )
    } else if id == 0x00E || id == 0x01F || id == 0x020 || id == 0x021 || id == 0x022
        || id == 0x030 || id == 0x031 || id == 0x032 {
        if data.len() < 4 {
            return Err(CanDecodeError::ShortPayload);
        }
        let f1 = first_float_bits(data);
        Ok(
            match id {
                0x00E => CanCommand::BmsData3 { link_cap_voltage: f1 },
                0x01F => CanCommand::PodSpeed { pod_speed: f1 },
                0x020 => CanCommand::PressureHigh(f1),
                0x021 => CanCommand::PressureLow1(f1),
                0x022 => CanCommand::PressureLow2(f1),
                0x030 => CanCommand::Current5V(f1),
                0x031 => CanCommand::Current12V(f1),
                _ => CanCommand::Current24V(f1),
            },
        )
    } else if id == 0x00B {
        Ok(CanCommand::BmsStateChange(get_state_change_ack(data)))
    } else if id == 0x015 {
        Ok(CanCommand::MotorControllerStateChange(get_state_change_ack(data)))
    } else if id == 0x00A {
        Ok(CanCommand::BmsFaultReport(BmsFaultReport::from_payload(data)))
    } else if id == 0x014 {
        Ok(CanCommand::MotorControllerFaultReport(MotorControllerFaultReport::from_payload(data)))
    } else {
        Ok(CanCommand::Unknown(id))
    }
}

/// Decoding raw CAN frames.
pub trait FrameHandler {
    /// The frame's 11-bit identifier.
    spec fn frame_id(&self) -> u16;

    /// The frame's payload bytes.
    spec fn frame_data(&self) -> Seq<u8>;

    /// Decode the frame per the device id table.
    fn get_command(&self) -> (r: Result<CanCommand, CanDecodeError>)
        ensures
            r == spec_decode(self.frame_id(), self.frame_data()),
    ;
}

impl FrameHandler for CanFrame {
    open spec fn frame_id(&self) -> u16 {
        self.id
    }

    open spec fn frame_data(&self) -> Seq<u8> {
        self.data@
    }

    fn get_command(&self) -> (r: Result<CanCommand, CanDecodeError>) {
        decode_frame(self.id, self.data.as_slice())
    }
}

/// The canonical wire form of a command: its identifier and payload.
/// Acknowledgements are emitted as a single byte (`1` for `Ack`, `0`
/// for `Nack`) or an empty payload for `Unknown`; fault reports as
/// their eight flag bytes; unknown commands with an empty payload.
pub open spec fn spec_encode(cmd: CanCommand) -> (u16, Seq<u8>) {
    match cmd {
        CanCommand::BmsHealthCheck { battery_pack_current: f1, cell_temperature: f2 } => (
            0x001,
            spec_u32_to_le_bytes(f1) + spec_u32_to_le_bytes(f2),
        ),
        CanCommand::MotorControllerHealthCheck { igbt_temp: f1, motor_voltage: f2 } => (
            0x002,
            spec_u32_to_le_bytes(f1) + spec_u32_to_le_bytes(f2),
        ),
        CanCommand::BmsFaultReport(r) => (0x00A, spec_u64_to_le_bytes(r.flags)),
        CanCommand::BmsStateChange(a) => (0x00B, spec_encode_ack(a)),
        CanCommand::BmsData1 { battery_pack_voltage: f1, state_of_charge: f2 } => (
            0x00C,
            spec_u32_to_le_bytes(f1) + spec_u32_to_le_bytes(f2),
        ),
        CanCommand::BmsData2 { buck_temperature: f1, bms_current: f2 } => (
            0x00D,
            spec_u32_to_le_bytes(f1) + spec_u32_to_le_bytes(f2),
        ),
        CanCommand::BmsData3 { link_cap_voltage: f1 } => (0x00E, spec_u32_to_le_bytes(f1)),
        CanCommand::MotorControllerFaultReport(r) => (0x014, spec_u64_to_le_bytes(r.flags)),
        CanCommand::MotorControllerStateChange(a) => (0x015, spec_encode_ack(a)),
        CanCommand::MotorControllerData1 { mc_pod_speed: f1, motor_current: f2 } => (
            0x016,
            spec_u32_to_le_bytes(f1) + spec_u32_to_le_bytes(f2),
        ),
        CanCommand::MotorControllerData2 { battery_current: f1, battery_voltage: f2 } => (
            0x017,
            spec_u32_to_le_bytes(f1) + spec_u32_to_le_bytes(f2),
        ),
        CanCommand::PodSpeed { pod_speed: f1 } => (0x01F, spec_u32_to_le_bytes(f1)),
        CanCommand::PressureHigh(f1) => (0x020, spec_u32_to_le_bytes(f1)),
        CanCommand::PressureLow1(f1) => (0x021, spec_u32_to_le_bytes(f1)),
        CanCommand::PressureLow2(f1) => (0x022, spec_u32_to_le_bytes(f1)),
        CanCommand::Current5V(f1) => (0x030, spec_u32_to_le_bytes(f1)),
        CanCommand::Current12V(f1) => (0x031, spec_u32_to_le_bytes(f1)),
        CanCommand::Current24V(f1) => (0x032, spec_u32_to_le_bytes(f1)),
        CanCommand::Torchic1 { temp_1: f1, temp_2: f2 } => (
            0x040,
            spec_u32_to_le_bytes(f1) + spec_u32_to_le_bytes(f2),
        ),
        CanCommand::Torchic2 { temp_1: f1, temp_2: f2 } => (
            0x041,
            spec_u32_to_le_bytes(f1) + spec_u32_to_le_bytes(f2),
        ),
        CanCommand::Unknown(id) => (id, Seq::empty()),
    }
}

/// The wire byte of an acknowledgement.
pub open spec fn spec_encode_ack(a: AckNack) -> Seq<u8> {
    match a {
        AckNack::Ack => seq![1u8],
        AckNack::Nack => seq![0u8],
        AckNack::Unknown => Seq::empty(),
    }
}

fn encode_two_floats(f1: u32, f2: u32) -> (v: Vec<u8>)
    ensures
        v@ == spec_u32_to_le_bytes(f1) + spec_u32_to_le_bytes(f2),
{
    let mut v = u32_to_le_bytes(f1);
    let mut tail = u32_to_le_bytes(f2);
    v.append(&mut tail);
    v
}

fn encode_ack(a: &AckNack) -> (v: Vec<u8>)
    ensures
        v@ == spec_encode_ack(*a),
{
    let mut v: Vec<u8> = Vec::new();
    match a {
        AckNack::Ack => {
            v.push(1);
            assert(v@ =~= seq![1u8]);
        },
        AckNack::Nack => {
            v.push(0);
            assert(v@ =~= seq![0u8]);
        },
        AckNack::Unknown => {
            assert(v@ =~= Seq::<u8>::empty());
        },
    }
    v
}

/// Encode a command into its canonical wire form.
pub fn encode_command(cmd: &CanCommand) -> (f: CanFrame)
    ensures
        f.id == spec_encode(*cmd).0,
        f.data@ == spec_encode(*cmd).1,
{
    match cmd {
        CanCommand::BmsHealthCheck { battery_pack_current: f1, cell_temperature: f2 } => CanFrame {
            id: 0x001,
            data: encode_two_floats(*f1, *f2),
        },
        CanCommand::MotorControllerHealthCheck { igbt_temp: f1, motor_voltage: f2 } => CanFrame {
            id: 0x002,
            data: encode_two_floats(*f1, *f2),
        },
        CanCommand::BmsFaultReport(r) => CanFrame { id: 0x00A, data: u64_to_le_bytes(r.flags) },
        CanCommand::BmsStateChange(a) => CanFrame { id: 0x00B, data: encode_ack(a) },
        CanCommand::BmsData1 { battery_pack_voltage: f1, state_of_charge: f2 } => CanFrame {
            id: 0x00C,
            data: encode_two_floats(*f1, *f2),
        },
        CanCommand::BmsData2 { buck_temperature: f1, bms_current: f2 } => CanFrame {
            id: 0x00D,
            data: encode_two_floats(*f1, *f2),
        },
        CanCommand::BmsData3 { link_cap_voltage: f1 } => CanFrame {
            id: 0x00E,
            data: u32_to_le_bytes(*f1),
        },
        CanCommand::MotorControllerFaultReport(r) => CanFrame {
            id: 0x014,
            data: u64_to_le_bytes(r.flags),
        },
        CanCommand::MotorControllerStateChange(a) => CanFrame { id: 0x015, data: encode_ack(a) },
        CanCommand::MotorControllerData1 { mc_pod_speed: f1, motor_current: f2 } => CanFrame {
            id: 0x016,
            data: encode_two_floats(*f1, *f2),
        },
        CanCommand::MotorControllerData2 { battery_current: f1, battery_voltage: f2 } => CanFrame {
            id: 0x017,
            data: encode_two_floats(*f1, *f2),
        },
        CanCommand::PodSpeed { pod_speed: f1 } => CanFrame {
            id: 0x01F,
            data: u32_to_le_bytes(*f1),
        },
        CanCommand::PressureHigh(f1) => CanFrame { id: 0x020, data: u32_to_le_bytes(*f1) },
        CanCommand::PressureLow1(f1) => CanFrame { id: 0x021, data: u32_to_le_bytes(*f1) },
        CanCommand::PressureLow2(f1) => CanFrame { id: 0x022, data: u32_to_le_bytes(*f1) },
        CanCommand::Current5V(f1) => CanFrame { id: 0x030, data: u32_to_le_bytes(*f1) },
        CanCommand::Current12V(f1) => CanFrame { id: 0x031, data: u32_to_le_bytes(*f1) },
        CanCommand::Current24V(f1) => CanFrame { id: 0x032, data: u32_to_le_bytes(*f1) },
        CanCommand::Torchic1 { temp_1: f1, temp_2: f2 } => CanFrame {
            id: 0x040,
            data: encode_two_floats(*f1, *f2),
        },
        CanCommand::Torchic2 { temp_1: f1, temp_2: f2 } => CanFrame {
            id: 0x041,
            data: encode_two_floats(*f1, *f2),
        },
        CanCommand::Unknown(id) => {
            let v: Vec<u8> = Vec::new();
            assert(v@ =~= Seq::<u8>::empty());
            CanFrame { id: *id, data: v }
        },
    }
}

/// Law: decoding never faults on a known identifier whose payload is
/// at least as long as that identifier requires.
pub proof fn lemma_decode_total_on_known_ids(id: u16, data: Seq<u8>)
    requires
        spec_known_id(id),
        data.len() >= spec_required_len(id),
    ensures
        spec_decode(id, data) is Ok,
{
}

/// A payload in the codec's canonical wire form: exactly the required
/// float bytes, exactly eight flag bytes for a fault report, and an
/// acknowledgement byte of `0` or `1` (or absent).
pub open spec fn spec_canonical_payload(id: u16, data: Seq<u8>) -> bool {
    if spec_is_two_float_id(id) {
        data.len() == 8
    } else if spec_is_one_float_id(id) {
        data.len() == 4
    } else if spec_is_fault_id(id) {
        data.len() == 8
    } else if spec_is_ack_id(id) {
        data.len() == 0 || (data.len() == 1 && data[0] <= 1)
    } else {
        data.len() == 0
    }
}

/// Law: over the known identifiers, decoding a canonical frame and
/// re-encoding the command is the identity on the frame.  (The
/// restriction to canonical payloads is forced by the wire format
/// itself: an acknowledgement byte above `1` decodes to the same
/// `Ack` as the byte `1`, so its exact byte cannot be recovered.)
pub proof fn lemma_encode_decode_round_trip(id: u16, data: Seq<u8>)
    requires
        spec_known_id(id),
        spec_canonical_payload(id, data),
    ensures
        spec_decode(id, data) matches Ok(cmd) && spec_encode(cmd) == (id, data),
{
    lemma_auto_spec_u32_to_from_le_bytes();
    lemma_auto_spec_u64_to_from_le_bytes();
    let cmd = spec_decode(id, data)->Ok_0;
    if spec_is_two_float_id(id) {
        assert(spec_encode(cmd).1 =~= data);
    } else if spec_is_one_float_id(id) {
        assert(data.subrange(0, 4) =~= data);
        assert(spec_encode(cmd).1 =~= data);
    } else if spec_is_fault_id(id) {
        assert(crate::fault_report::spec_padded_flag_bytes(data) =~= data);
        assert(spec_encode(cmd).1 =~= data);
    } else {
        if data.len() == 0 {
            assert(spec_encode(cmd).1 =~= data);
        } else if data[0] == 0 {
            assert(spec_encode(cmd).1 =~= data);
        } else {
            assert(data[0] == 1);
            assert(spec_encode(cmd).1 =~= data);
        }
    }
}

/// The outbound pod-state announcement: identifier `0x000`, a single
/// payload byte carrying the state code.
pub fn encode_pod_state(state: &PodState) -> (f: CanFrame)
    ensures
        f.id == 0,
        f.data@ == seq![state.spec_to_byte()],
        f.wf(),
{
    let mut data: Vec<u8> = Vec::new();
    data.push(state.to_byte());
    assert(data@ =~= seq![state.spec_to_byte()]);
    CanFrame { id: 0, data }
}

} // verus!
