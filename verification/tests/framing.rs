use zigate::command::{decode, transcode, Command, MessageType};
use zigate::error::ZigateError;

fn version_frame() -> Vec<u8> {
    vec![
        0x01, 0x80, 0x02, 0x00, 0x02, 0x10, 0x02, 0x14, 0x9C, 0x02, 0x10, 0x02, 0x12, 0x02, 0x10,
        0x02, 0x1A, 0x03,
    ]
}

#[test]
fn empty_get_version_frame_is_fully_escaped() {
    // header 00 10 00 00, checksum 00 ^ 10 ^ 00 ^ 00 = 10, and every one of
    // the five bytes is at most 0x10, so each becomes a pair
    let cmd = Command::new(0x0010, vec![]).unwrap();
    assert_eq!(cmd.get_checksum(), 0x10);
    assert_eq!(
        cmd.serialize(),
        vec![0x01, 0x02, 0x10, 0x02, 0x00, 0x02, 0x10, 0x02, 0x10, 0x02, 0x00, 0x03]
    );
}

#[test]
fn version_list_frame_serializes_bit_exact() {
    let cmd = Command::new(0x8010, vec![0x00, 0x02, 0x00, 0x0A]).unwrap();
    assert_eq!(cmd.get_checksum(), 0x9C);
    assert_eq!(cmd.serialize(), version_frame());
}

#[test]
fn version_list_frame_decodes() {
    let cmd = Command::from_raw(&version_frame()).unwrap();
    assert_eq!(cmd.msg_type, 0x8010);
    assert_eq!(cmd.data, vec![0x00, 0x02, 0x00, 0x0A]);
}

#[test]
fn roundtrip_covers_every_byte_value() {
    let payload: Vec<u8> = (0..=254u8).collect();
    assert_eq!(payload.len(), 255);
    for msg_type in [0x0000u16, 0x0010, 0x0102, 0x8010, 0x1002, 0xFFFF] {
        let cmd = Command::new(msg_type, payload.clone()).unwrap();
        let raw = cmd.serialize();
        let back = Command::from_raw(&raw).unwrap();
        assert_eq!(back.msg_type, msg_type);
        assert_eq!(back.data, payload);
        assert_eq!(back.get_checksum(), cmd.get_checksum());
    }
    let cmd = Command::new(0x0021, vec![0xFF, 0x00, 0x10, 0x11, 0x02, 0x01, 0x03]).unwrap();
    let back = Command::from_raw(&cmd.serialize()).unwrap();
    assert_eq!(back.data, vec![0xFF, 0x00, 0x10, 0x11, 0x02, 0x01, 0x03]);
}

#[test]
fn escape_examples() {
    assert_eq!(transcode(&vec![]), vec![]);
    assert_eq!(transcode(&vec![0x11]), vec![0x11]);
    assert_eq!(transcode(&vec![0x10]), vec![0x02, 0x00]);
    assert_eq!(transcode(&vec![0x00]), vec![0x02, 0x10]);
    assert_eq!(transcode(&vec![0x01, 0x02, 0x03]), vec![0x02, 0x11, 0x02, 0x12, 0x02, 0x13]);
    assert_eq!(transcode(&vec![0xFF, 0x0F]), vec![0xFF, 0x02, 0x1F]);
}

#[test]
fn escape_is_undone_and_avoids_markers() {
    let all: Vec<u8> = (0..=255u8).collect();
    let escaped = transcode(&all);
    assert_eq!(escaped.len(), 256 + 17);
    assert!(!escaped.contains(&0x01));
    assert!(!escaped.contains(&0x03));
    assert_eq!(decode(&escaped), all);
    for b in 0..=255u8 {
        let one = vec![b];
        assert_eq!(decode(&transcode(&one)), one);
    }
}

#[test]
fn unescape_of_other_input() {
    assert_eq!(decode(&[0x02]), Vec::<u8>::new());
    assert_eq!(decode(&[0x02, 0x02, 0x15]), vec![0x05]);
    assert_eq!(decode(&[0x05, 0x02, 0x15, 0x15]), vec![0x05, 0x05, 0x15]);
    assert_eq!(decode(&[0x01, 0x03]), vec![0x01, 0x03]);
}

#[test]
fn checksum_is_xor_of_header_and_payload() {
    let cmd = Command::new(0x1234, vec![0x0F, 0xF0, 0x55]).unwrap();
    assert_eq!(cmd.get_checksum(), 0x12 ^ 0x34 ^ 0x00 ^ 0x03 ^ 0x0F ^ 0xF0 ^ 0x55);
    let long = Command { msg_type: 0, data: vec![0; 0x0102] };
    assert_eq!(long.get_checksum(), 0x01 ^ 0x02);
}

#[test]
fn new_refuses_long_payloads() {
    assert!(Command::new(0x0010, vec![0; 255]).is_ok());
    assert_eq!(Command::new(0x0010, vec![0; 256]).unwrap_err(), ZigateError::PayloadOverflow);
}

#[test]
fn bad_checksum_is_rejected_when_strict() {
    let mut raw = version_frame();
    assert_eq!(raw[8], 0x9C);
    raw[8] ^= 0x80;
    assert_eq!(Command::from_raw(&raw).unwrap_err(), ZigateError::BadChecksum);
}

#[test]
fn bad_checksum_is_delivered_with_a_flag_when_lenient() {
    let mut raw = version_frame();
    raw[8] ^= 0x80;
    let decoded = Command::from_raw_lenient(&raw).unwrap();
    assert!(!decoded.checksum_ok());
    assert_eq!(decoded.stated_checksum, 0x1C);
    assert_eq!(decoded.stated_length, 4);
    assert_eq!(decoded.command.msg_type, 0x8010);
    assert_eq!(decoded.command.data, vec![0x00, 0x02, 0x00, 0x0A]);
    let decoded = Command::from_raw_lenient(&version_frame()).unwrap();
    assert!(decoded.checksum_ok());
    assert_eq!(decoded.stated_checksum, 0x9C);
    assert_eq!(decoded.stated_length, 4);
    assert_eq!(decoded.command.msg_type, 0x8010);
}

#[test]
fn short_raw_frame_is_rejected() {
    assert_eq!(Command::from_raw(&vec![]).unwrap_err(), ZigateError::ShortFrame);
    assert_eq!(
        Command::from_raw(&vec![0x01, 0x80, 0x11, 0x12, 0x13, 0x03]).unwrap_err(),
        ZigateError::ShortFrame
    );
}

#[test]
fn short_body_is_rejected() {
    let raw = vec![0x01, 0x02, 0x02, 0x02, 0x02, 0x02, 0x03];
    assert_eq!(Command::from_raw(&raw).unwrap_err(), ZigateError::ShortFrame);
    let raw = vec![0x01, 0x02, 0x10, 0x02, 0x10, 0x02, 0x10, 0x02, 0x10, 0x03];
    assert_eq!(Command::from_raw(&raw).unwrap_err(), ZigateError::ShortFrame);
}

#[test]
fn missing_markers_are_rejected() {
    let mut raw = version_frame();
    raw[0] = 0x00;
    assert_eq!(Command::from_raw(&raw).unwrap_err(), ZigateError::BadMarker);
    let mut raw = version_frame();
    let last = raw.len() - 1;
    raw[last] = 0x13;
    assert_eq!(Command::from_raw(&raw).unwrap_err(), ZigateError::BadMarker);
    assert_eq!(Command::from_raw_lenient(&raw).unwrap_err(), ZigateError::BadMarker);
}

#[test]
fn length_mismatch_is_rejected() {
    // header states 5 bytes, 4 follow
    let raw = vec![
        0x01, 0x80, 0x02, 0x00, 0x02, 0x10, 0x02, 0x15, 0x9D, 0x02, 0x10, 0x02, 0x12, 0x02, 0x10,
        0x02, 0x1A, 0x03,
    ];
    assert_eq!(Command::from_raw(&raw).unwrap_err(), ZigateError::LengthMismatch);
    assert_eq!(Command::from_raw_lenient(&raw).unwrap_err(), ZigateError::LengthMismatch);
}

#[test]
fn single_bit_flips_never_go_unnoticed() {
    let cmd = Command::new(0x8010, vec![0x00, 0x02, 0x00, 0x0A, 0x10, 0x11, 0xFF]).unwrap();
    let raw = cmd.serialize();
    for i in 0..raw.len() {
        for bit in 0..8 {
            let mut flipped = raw.clone();
            flipped[i] ^= 1 << bit;
            match Command::from_raw(&flipped) {
                Ok(other) => assert!(other.msg_type != cmd.msg_type || other.data != cmd.data),
                Err(_) => {}
            }
        }
    }
}

#[test]
fn message_type_codes() {
    assert_eq!(MessageType::from_u16(0x0009), MessageType::GetNetworkState);
    assert_eq!(MessageType::from_u16(0x0010), MessageType::GetVersion);
    assert_eq!(MessageType::from_u16(0x0045), MessageType::ActiveEndpoint);
    assert_eq!(MessageType::from_u16(0x004D), MessageType::DeviceAnnounce);
    assert_eq!(MessageType::from_u16(0x8000), MessageType::Status);
    assert_eq!(MessageType::from_u16(0x8010), MessageType::VersionList);
    assert_eq!(MessageType::from_u16(0x8015), MessageType::DevicesList);
    assert_eq!(MessageType::from_u16(0x8043), MessageType::SimpleDescriptorResponse);
    assert_eq!(MessageType::from_u16(0x8045), MessageType::ActiveEndpoints);
    assert_eq!(MessageType::from_u16(0x8701), MessageType::RouterDiscoveryConfirm);
    assert_eq!(MessageType::from_u16(0x7777), MessageType::Unknown(0x7777));
    assert_eq!(MessageType::Unknown(0x7777).code(), 0x7777);
    for code in 0..=0xFFFFu16 {
        assert_eq!(MessageType::from_u16(code).code(), code);
    }
}

#[test]
fn error_messages_differ() {
    let all = [
        ZigateError::ShortFrame,
        ZigateError::BadMarker,
        ZigateError::LengthMismatch,
        ZigateError::BadChecksum,
        ZigateError::PayloadOverflow,
        ZigateError::DecodeFailure,
        ZigateError::Timeout,
        ZigateError::NotAvailable,
        ZigateError::TransportError,
    ];
    for (i, a) in all.iter().enumerate() {
        assert!(!a.message().is_empty());
        for b in &all[i + 1..] {
            assert_ne!(a.message(), b.message());
        }
    }
    assert_eq!(ZigateError::Timeout.message(), "timed out waiting for a response");
}
