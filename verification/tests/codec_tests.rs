use pod_server::ack_nack::{get_state_change_ack, AckNack};
use pod_server::can_command::CanCommand;
use pod_server::can_frame::{
    decode_frame, encode_command, encode_pod_state, CanDecodeError, CanFrame, FrameHandler,
};
use pod_server::fault_report::BmsFaultReport;
use pod_server::pod_state::PodState;

fn two_floats(a: f32, b: f32) -> Vec<u8> {
    let mut v = a.to_le_bytes().to_vec();
    v.extend_from_slice(&b.to_le_bytes());
    v
}

#[test]
fn pod_state_byte_codec_round_trips() {
    let states = [
        PodState::Startup,
        PodState::LowVoltage,
        PodState::Armed,
        PodState::AutoPilot,
        PodState::Braking,
        PodState::EmergencyBrake,
        PodState::SystemFailure,
    ];
    for s in states {
        assert_eq!(PodState::from_byte(s.to_byte()), Some(s));
    }
    // The defined domain is exactly 0x00..=0x06.
    for b in 0u8..=6u8 {
        assert_eq!(PodState::from_byte(b).unwrap().to_byte(), b);
    }
    assert_eq!(PodState::from_byte(0x07), None);
    assert_eq!(PodState::from_byte(0xFF), None);
}

#[test]
fn decode_two_float_frame_reads_little_endian() {
    // Would fail if the byte reader handed anything but the
    // little-endian u32 at [0..4) and [4..8) back.
    let data = vec![0x01u8, 0x02, 0x03, 0x04, 0xAA, 0xBB, 0xCC, 0x0D];
    match decode_frame(0x001, &data).unwrap() {
        CanCommand::BmsHealthCheck {
            battery_pack_current,
            cell_temperature,
        } => {
            assert_eq!(battery_pack_current, 0x04030201);
            assert_eq!(cell_temperature, 0x0DCCBBAA);
        }
        other => panic!("wrong variant: {:?}", other),
    }
}

#[test]
fn decode_carries_float_bits_faithfully() {
    let data = two_floats(1.5, -2.25);
    match decode_frame(0x016, &data).unwrap() {
        CanCommand::MotorControllerData1 {
            mc_pod_speed,
            motor_current,
        } => {
            assert_eq!(f32::from_bits(mc_pod_speed), 1.5);
            assert_eq!(f32::from_bits(motor_current), -2.25);
        }
        other => panic!("wrong variant: {:?}", other),
    }
    let one = 42.0f32.to_le_bytes();
    match decode_frame(0x020, &one).unwrap() {
        CanCommand::PressureHigh(bits) => assert_eq!(f32::from_bits(bits), 42.0),
        other => panic!("wrong variant: {:?}", other),
    }
}

#[test]
fn decode_covers_every_known_id() {
    let eight = vec![1u8, 0, 0, 0, 2, 0, 0, 0];
    let four = vec![3u8, 0, 0, 0];
    assert!(matches!(
        decode_frame(0x001, &eight).unwrap(),
        CanCommand::BmsHealthCheck { .. }
    ));
    assert!(matches!(
        decode_frame(0x002, &eight).unwrap(),
        CanCommand::MotorControllerHealthCheck { .. }
    ));
    assert!(matches!(
        decode_frame(0x00A, &eight).unwrap(),
        CanCommand::BmsFaultReport(_)
    ));
    assert!(matches!(
        decode_frame(0x00B, &eight).unwrap(),
        CanCommand::BmsStateChange(AckNack::Ack)
    ));
    assert!(matches!(
        decode_frame(0x00C, &eight).unwrap(),
        CanCommand::BmsData1 { .. }
    ));
    assert!(matches!(
        decode_frame(0x00D, &eight).unwrap(),
        CanCommand::BmsData2 { .. }
    ));
    assert!(matches!(
        decode_frame(0x00E, &four).unwrap(),
        CanCommand::BmsData3 { .. }
    ));
    assert!(matches!(
        decode_frame(0x014, &eight).unwrap(),
        CanCommand::MotorControllerFaultReport(_)
    ));
    assert!(matches!(
        decode_frame(0x015, &eight).unwrap(),
        CanCommand::MotorControllerStateChange(AckNack::Ack)
    ));
    assert!(matches!(
        decode_frame(0x016, &eight).unwrap(),
        CanCommand::MotorControllerData1 { .. }
    ));
    assert!(matches!(
        decode_frame(0x017, &eight).unwrap(),
        CanCommand::MotorControllerData2 { .. }
    ));
    assert!(matches!(
        decode_frame(0x01F, &four).unwrap(),
        CanCommand::PodSpeed { .. }
    ));
    assert!(matches!(
        decode_frame(0x021, &four).unwrap(),
        CanCommand::PressureLow1(_)
    ));
    assert!(matches!(
        decode_frame(0x022, &four).unwrap(),
        CanCommand::PressureLow2(_)
    ));
    assert!(matches!(
        decode_frame(0x030, &four).unwrap(),
        CanCommand::Current5V(_)
    ));
    assert!(matches!(
        decode_frame(0x031, &four).unwrap(),
        CanCommand::Current12V(_)
    ));
    assert!(matches!(
        decode_frame(0x032, &four).unwrap(),
        CanCommand::Current24V(_)
    ));
    assert!(matches!(
        decode_frame(0x040, &eight).unwrap(),
        CanCommand::Torchic1 { .. }
    ));
    assert!(matches!(
        decode_frame(0x041, &eight).unwrap(),
        CanCommand::Torchic2 { .. }
    ));
    assert_eq!(decode_frame(0x123, &four).unwrap(), CanCommand::Unknown(0x123));
    assert_eq!(decode_frame(0x000, &four).unwrap(), CanCommand::Unknown(0x000));
}

#[test]
fn short_payloads_are_decode_faults() {
    let seven = vec![0u8; 7];
    let three = vec![0u8; 3];
    assert_eq!(decode_frame(0x001, &seven), Err(CanDecodeError::ShortPayload));
    assert_eq!(decode_frame(0x040, &three), Err(CanDecodeError::ShortPayload));
    assert_eq!(decode_frame(0x020, &three), Err(CanDecodeError::ShortPayload));
    // Unknown ids and the ack/fault ids never fault on length.
    assert!(decode_frame(0x00A, &[]).is_ok());
    assert!(decode_frame(0x777, &[]).is_ok());
}

#[test]
fn empty_state_change_payload_is_unknown_ack() {
    assert_eq!(get_state_change_ack(&[]), AckNack::Unknown);
    assert_eq!(get_state_change_ack(&[0]), AckNack::Nack);
    assert_eq!(get_state_change_ack(&[1]), AckNack::Ack);
    assert_eq!(get_state_change_ack(&[0x7F]), AckNack::Ack);
    assert_eq!(
        decode_frame(0x00B, &[]).unwrap(),
        CanCommand::BmsStateChange(AckNack::Unknown)
    );
    assert_eq!(
        decode_frame(0x015, &[0]).unwrap(),
        CanCommand::MotorControllerStateChange(AckNack::Nack)
    );
}

#[test]
fn fault_report_equality_is_flag_set_equality() {
    let a = decode_frame(0x00A, &[0b1010, 0, 0, 0, 0, 0, 0, 1]).unwrap();
    let b = decode_frame(0x00A, &[0b1010, 0, 0, 0, 0, 0, 0, 1]).unwrap();
    let c = decode_frame(0x00A, &[0b1010, 0, 0, 0, 0, 0, 0, 0]).unwrap();
    assert_eq!(a, b);
    assert_ne!(a, c);
    // Missing flag bytes read as no flags set.
    let short = decode_frame(0x00A, &[0b1010]).unwrap();
    assert_eq!(
        short,
        CanCommand::BmsFaultReport(BmsFaultReport { flags: 0b1010 })
    );
}

#[test]
fn encode_decode_round_trips_on_canonical_frames() {
    let frames: Vec<(u16, Vec<u8>)> = vec![
        (0x001, two_floats(3.5, -0.25)),
        (0x00C, two_floats(388.0, 0.87)),
        (0x00E, 12.0f32.to_le_bytes().to_vec()),
        (0x00A, vec![1, 2, 3, 4, 5, 6, 7, 8]),
        (0x00B, vec![0]),
        (0x00B, vec![1]),
        (0x015, vec![]),
        (0x020, 9.75f32.to_le_bytes().to_vec()),
        (0x041, two_floats(20.5, 21.5)),
    ];
    for (id, data) in frames {
        let cmd = decode_frame(id, &data).unwrap();
        let frame = encode_command(&cmd);
        assert_eq!(frame.id, id);
        assert_eq!(frame.data, data, "payload of id {:#x} should round trip", id);
    }
}

#[test]
fn pod_state_announcement_frame_layout() {
    let f = encode_pod_state(&PodState::Armed);
    assert_eq!(f.id, 0x000);
    assert_eq!(f.data, vec![PodState::Armed.to_byte()]);
    assert_eq!(f.data.len(), 1);
}

#[test]
fn frame_handler_decodes_like_the_free_function() {
    let frame = CanFrame {
        id: 0x01F,
        data: 55.0f32.to_le_bytes().to_vec(),
    };
    match frame.get_command().unwrap() {
        CanCommand::PodSpeed { pod_speed } => assert_eq!(f32::from_bits(pod_speed), 55.0),
        other => panic!("wrong variant: {:?}", other),
    }
}

#[test]
fn extra_payload_bytes_are_tolerated_but_not_canonical() {
    // A longer-than-required payload still decodes (only the required
    // bytes are consumed), so re-encoding shortens it.
    let data = vec![1u8, 0, 0, 0, 2, 0, 0, 0, 99, 99];
    let cmd = decode_frame(0x00C, &data).unwrap();
    let frame = encode_command(&cmd);
    assert_eq!(frame.data.len(), 8);
    assert_eq!(&frame.data[..], &data[..8]);
    // An acknowledgement byte above 1 decodes to the same Ack as 1.
    let cmd = decode_frame(0x00B, &[7]).unwrap();
    assert_eq!(cmd, CanCommand::BmsStateChange(AckNack::Ack));
    assert_eq!(encode_command(&cmd).data, vec![1]);
}

#[test]
fn fault_report_ignores_bytes_past_the_eighth() {
    let long = decode_frame(0x014, &[1, 0, 0, 0, 0, 0, 0, 0, 0xFF]).unwrap();
    let exact = decode_frame(0x014, &[1, 0, 0, 0, 0, 0, 0, 0]).unwrap();
    assert_eq!(long, exact);
}

#[test]
fn encode_command_emits_the_id_table() {
    let frame = encode_command(&CanCommand::PodSpeed { pod_speed: 0 });
    assert_eq!(frame.id, 0x01F);
    assert_eq!(frame.data.len(), 4);
    let frame = encode_command(&CanCommand::Unknown(0x300));
    assert_eq!(frame.id, 0x300);
    assert!(frame.data.is_empty());
    let frame = encode_command(&CanCommand::Torchic1 { temp_1: 5, temp_2: 6 });
    assert_eq!(frame.id, 0x040);
    assert_eq!(frame.data.len(), 8);
}
