//! Decoded CAN traffic: one variant per known 11-bit frame identifier.

use crate::ack_nack::AckNack;
use crate::fault_report::{BmsFaultReport, MotorControllerFaultReport};
use vstd::prelude::*;

verus! {

/// A decoded CAN frame, discriminated by its identifier.  Every scalar
/// telemetry field is the raw bit pattern of a little-endian IEEE-754
/// single-precision float; convert with `f32::from_bits` outside the
/// library.
#[derive(Clone, Copy, Debug, PartialEq, Eq, Structural)]
pub enum CanCommand {
    /// Id `0x001`.
    BmsHealthCheck { battery_pack_current: u32, cell_temperature: u32 },
    /// Id `0x002`.
    MotorControllerHealthCheck { igbt_temp: u32, motor_voltage: u32 },
    /// Id `0x00A`.
    BmsFaultReport(BmsFaultReport),
    /// Id `0x00B`.
    BmsStateChange(AckNack),
    /// Id `0x00C`.
    BmsData1 { battery_pack_voltage: u32, state_of_charge: u32 },
    /// Id `0x00D`.
    BmsData2 { buck_temperature: u32, bms_current: u32 },
    /// Id `0x00E`.
    BmsData3 { link_cap_voltage: u32 },
    /// Id `0x014`.
    MotorControllerFaultReport(MotorControllerFaultReport),
    /// Id `0x015`.
    MotorControllerStateChange(AckNack),
    /// Id `0x016`.
    MotorControllerData1 { mc_pod_speed: u32, motor_current: u32 },
    /// Id `0x017`.
    MotorControllerData2 { battery_current: u32, battery_voltage: u32 },
    /// Id `0x01F`.
    PodSpeed { pod_speed: u32 },
    /// Id `0x020`.
    PressureHigh(u32),
    /// Id `0x021`.
    PressureLow1(u32),
    /// Id `0x022`.
    PressureLow2(u32),
    /// Id `0x030`.
    Current5V(u32),
    /// Id `0x031`.
    Current12V(u32),
    /// Id `0x032`.
    Current24V(u32),
    /// Id `0x040`: the two thermocouple readings of torchic board 1.
    Torchic1 { temp_1: u32, temp_2: u32 },
    /// Id `0x041`: the two thermocouple readings of torchic board 2.
    Torchic2 { temp_1: u32, temp_2: u32 },
    /// Any identifier outside the table above; never a fatal error.
    Unknown(u16),
}

} // verus!
