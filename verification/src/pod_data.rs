//! The live telemetry snapshot and the aggregator that folds decoded
//! CAN commands into it.

use crate::can_command::CanCommand;
use crate::messages::UDPMessage;
use vstd::prelude::*;

verus! {

/// One torchic board: two optional thermocouple readings (raw IEEE-754
/// bit patterns).
#[derive(Clone, Copy, Debug, PartialEq, Eq, Structural)]
pub struct TorchicPair {
    pub temp_1: Option<u32>,
    pub temp_2: Option<u32>,
}

/// Snapshot of the latest telemetry.  Every field is absent until its
/// first sample arrives; every scalar is the raw bit pattern of an
/// IEEE-754 single-precision float.
#[derive(Clone, Copy, Debug, PartialEq, Eq, Structural)]
pub struct PodData {
    pub pressure_high: Option<u32>,
    pub pressure_low_1: Option<u32>,
    pub pressure_low_2: Option<u32>,
    pub battery_pack_current: Option<u32>,
    pub cell_temperature: Option<u32>,
    pub battery_voltage: Option<u32>,
    pub state_of_charge: Option<u32>,
    pub buck_temperature: Option<u32>,
    pub bms_current: Option<u32>,
    pub link_cap_voltage: Option<u32>,
    pub igbt_temp: Option<u32>,
    pub motor_voltage: Option<u32>,
    pub mc_pod_speed: Option<u32>,
    pub motor_current: Option<u32>,
    pub battery_current: Option<u32>,
    pub pod_speed: Option<u32>,
    pub current_5v: Option<u32>,
    pub current_12v: Option<u32>,
    pub current_24v: Option<u32>,
    pub torchic_1: TorchicPair,
    pub torchic_2: TorchicPair,
}

impl PodData {
    /// The empty snapshot every field of which is still absent.
    pub open spec fn spec_new() -> PodData {
        PodData {
            pressure_high: None,
            pressure_low_1: None,
            pressure_low_2: None,
            battery_pack_current: None,
            cell_temperature: None,
            battery_voltage: None,
            state_of_charge: None,
            buck_temperature: None,
            bms_current: None,
            link_cap_voltage: None,
            igbt_temp: None,
            motor_voltage: None,
            mc_pod_speed: None,
            motor_current: None,
            battery_current: None,
            pod_speed: None,
            current_5v: None,
            current_12v: None,
            current_24v: None,
            torchic_1: TorchicPair { temp_1: None, temp_2: None },
            torchic_2: TorchicPair { temp_1: None, temp_2: None },
        }
    }

    pub fn new() -> (r: PodData)
        ensures
            r == Self::spec_new(),
    {
        PodData {
            pressure_high: None,
            pressure_low_1: None,
            pressure_low_2: None,
            battery_pack_current: None,
            cell_temperature: None,
            battery_voltage: None,
            state_of_charge: None,
            buck_temperature: None,
            bms_current: None,
            link_cap_voltage: None,
            igbt_temp: None,
            motor_voltage: None,
            mc_pod_speed: None,
            motor_current: None,
            battery_current: None,
            pod_speed: None,
            current_5v: None,
            current_12v: None,
            current_24v: None,
            torchic_1: TorchicPair { temp_1: None, temp_2: None },
            torchic_2: TorchicPair { temp_1: None, temp_2: None },
        }
    }
}

/// How one decoded command changes the snapshot, and whether it counts
/// as new telemetry.  Sensor, pressure, torchic and current frames are
/// new telemetry; health checks update their diagnostic fields without
/// counting as new; fault reports, acknowledgements and unknown frames
/// leave the snapshot unchanged.
pub open spec fn spec_apply_command(d: PodData, cmd: CanCommand) -> (PodData, bool) {
    match cmd {
        CanCommand::BmsHealthCheck { battery_pack_current, cell_temperature } => (
            PodData {
                battery_pack_current: Some(battery_pack_current),
                cell_temperature: Some(cell_temperature),
                ..d
            },
            false,
        ),
        CanCommand::MotorControllerHealthCheck { igbt_temp, motor_voltage } => (
            PodData { igbt_temp: Some(igbt_temp), motor_voltage: Some(motor_voltage), ..d },
            false,
        ),
        CanCommand::BmsFaultReport(_) => (d, false),
        CanCommand::BmsStateChange(_) => (d, false),
        CanCommand::BmsData1 { battery_pack_voltage, state_of_charge } => (
            PodData {
                battery_voltage: Some(battery_pack_voltage),
                state_of_charge: Some(state_of_charge),
                ..d
            },
            true,
        ),
        CanCommand::BmsData2 { buck_temperature, bms_current } => (
            PodData { buck_temperature: Some(buck_temperature), bms_current: Some(bms_current), ..d },
            true,
        ),
        CanCommand::BmsData3 { link_cap_voltage } => (
            PodData { link_cap_voltage: Some(link_cap_voltage), ..d },
            true,
        ),
        CanCommand::MotorControllerFaultReport(_) => (d, false),
        CanCommand::MotorControllerStateChange(_) => (d, false),
        CanCommand::MotorControllerData1 { mc_pod_speed, motor_current } => (
            PodData { mc_pod_speed: Some(mc_pod_speed), motor_current: Some(motor_current), ..d },
            true,
        ),
        CanCommand::MotorControllerData2 { battery_current, battery_voltage } => (
            PodData {
                battery_current: Some(battery_current),
                battery_voltage: Some(battery_voltage),
                ..d
            },
            true,
        ),
        CanCommand::PodSpeed { pod_speed } => (PodData { pod_speed: Some(pod_speed), ..d }, true),
        CanCommand::PressureHigh(p) => (PodData { pressure_high: Some(p), ..d }, true),
        CanCommand::PressureLow1(p) => (PodData { pressure_low_1: Some(p), ..d }, true),
        CanCommand::PressureLow2(p) => (PodData { pressure_low_2: Some(p), ..d }, true),
        CanCommand::Current5V(c) => (PodData { current_5v: Some(c), ..d }, true),
        CanCommand::Current12V(c) => (PodData { current_12v: Some(c), ..d }, true),
        CanCommand::Current24V(c) => (PodData { current_24v: Some(c), ..d }, true),
        CanCommand::Torchic1 { temp_1, temp_2 } => (
            PodData { torchic_1: TorchicPair { temp_1: Some(temp_1), temp_2: Some(temp_2) }, ..d },
            true,
        ),
        CanCommand::Torchic2 { temp_1, temp_2 } => (
            PodData { torchic_2: TorchicPair { temp_1: Some(temp_1), temp_2: Some(temp_2) }, ..d },
            true,
        ),
        CanCommand::Unknown(_) => (d, false),
    }
}

/// The telemetry aggregator: accumulates the live snapshot and hands a
/// fresh copy to the operator session whenever new telemetry arrives.
pub struct Aggregator {
    pub pod_data: PodData,
}

impl Aggregator {
    pub fn new() -> (r: Aggregator)
        ensures
            r.pod_data == PodData::spec_new(),
    {
        Aggregator { pod_data: PodData::new() }
    }

    /// Fold one decoded command (received at `timestamp`, in
    /// milliseconds) into the snapshot; when the command carries new
    /// telemetry, the fresh snapshot is pushed to the operator
    /// session.
    pub fn ingest(&mut self, cmd: &CanCommand, timestamp: i64) -> (push: Option<UDPMessage>)
        ensures
            final(self).pod_data == spec_apply_command(old(self).pod_data, *cmd).0,
            push == if spec_apply_command(old(self).pod_data, *cmd).1 {
                Some(UDPMessage::TelemetryDataAvailable(final(self).pod_data, timestamp))
            } else {
                None::<UDPMessage>
            },
    {
        let mut new_data = true;
        match cmd {
            CanCommand::BmsHealthCheck { battery_pack_current, cell_temperature } => {
                self.pod_data.battery_pack_current = Some(*battery_pack_current);
                self.pod_data.cell_temperature = Some(*cell_temperature);
                new_data = false;
            },
            CanCommand::MotorControllerHealthCheck { igbt_temp, motor_voltage } => {
                self.pod_data.igbt_temp = Some(*igbt_temp);
                self.pod_data.motor_voltage = Some(*motor_voltage);
                new_data = false;
            },
            CanCommand::BmsData1 { battery_pack_voltage, state_of_charge } => {
                self.pod_data.battery_voltage = Some(*battery_pack_voltage);
                self.pod_data.state_of_charge = Some(*state_of_charge);
            },
            CanCommand::BmsData2 { buck_temperature, bms_current } => {
                self.pod_data.buck_temperature = Some(*buck_temperature);
                self.pod_data.bms_current = Some(*bms_current);
            },
            CanCommand::BmsData3 { link_cap_voltage } => {
                self.pod_data.link_cap_voltage = Some(*link_cap_voltage);
            },
            CanCommand::MotorControllerData1 { mc_pod_speed, motor_current } => {
                self.pod_data.mc_pod_speed = Some(*mc_pod_speed);
                self.pod_data.motor_current = Some(*motor_current);
            },
            CanCommand::MotorControllerData2 { battery_current, battery_voltage } => {
                self.pod_data.battery_current = Some(*battery_current);
                self.pod_data.battery_voltage = Some(*battery_voltage);
            },
            CanCommand::PodSpeed { pod_speed } => {
                self.pod_data.pod_speed = Some(*pod_speed);
            },
            CanCommand::PressureHigh(p) => {
                self.pod_data.pressure_high = Some(*p);
            },
            CanCommand::PressureLow1(p) => {
                self.pod_data.pressure_low_1 = Some(*p);
            },
            CanCommand::PressureLow2(p) => {
                self.pod_data.pressure_low_2 = Some(*p);
            },
            CanCommand::Current5V(c) => {
                self.pod_data.current_5v = Some(*c);
            },
            CanCommand::Current12V(c) => {
                self.pod_data.current_12v = Some(*c);
            },
            CanCommand::Current24V(c) => {
                self.pod_data.current_24v = Some(*c);
            },
            CanCommand::Torchic1 { temp_1, temp_2 } => {
                self.pod_data.torchic_1 = TorchicPair {
                    temp_1: Some(*temp_1),
                    temp_2: Some(*temp_2),
                };
            },
            CanCommand::Torchic2 { temp_1, temp_2 } => {
                self.pod_data.torchic_2 = TorchicPair {
                    temp_1: Some(*temp_1),
                    temp_2: Some(*temp_2),
                };
            },
            _ => {
                new_data = false;
            },
        }
        if new_data {
            Some(UDPMessage::TelemetryDataAvailable(self.pod_data, timestamp))
        } else {
            None
        }
    }
}

} // verus!
