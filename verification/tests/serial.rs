use zigate::command::Command;
use zigate::error::ZigateError;
use zigate::serial::{ChecksumPolicy, Received, Receiver};

fn version_frame() -> Vec<u8> {
    Command::new(0x8010, vec![0x00, 0x02, 0x00, 0x0A]).unwrap().serialize()
}

fn feed(receiver: &mut Receiver, bytes: &[u8]) -> Vec<Received> {
    bytes.iter().map(|b| receiver.push(*b)).collect()
}

#[test]
fn a_frame_arrives_with_its_last_byte() {
    let mut receiver = Receiver::new(ChecksumPolicy::Strict);
    let raw = version_frame();
    let events = feed(&mut receiver, &raw);
    assert_eq!(events.len(), raw.len());
    for event in &events[..raw.len() - 1] {
        assert!(matches!(event, Received::Pending));
    }
    match &events[raw.len() - 1] {
        Received::Frame(cmd) => {
            assert_eq!(cmd.msg_type, 0x8010);
            assert_eq!(cmd.data, vec![0x00, 0x02, 0x00, 0x0A]);
        }
        _ => panic!("no frame"),
    }
    assert!(receiver.msg.is_empty());
}

#[test]
fn a_start_marker_discards_what_came_before() {
    let mut receiver = Receiver::new(ChecksumPolicy::Strict);
    feed(&mut receiver, &[0x55, 0x66, 0x01, 0x80, 0x02]);
    assert_eq!(receiver.msg, vec![0x01, 0x80, 0x02]);
    let events = feed(&mut receiver, &version_frame());
    assert!(matches!(events.last(), Some(Received::Frame(_))));
    let events = feed(&mut receiver, &version_frame());
    assert!(matches!(events.last(), Some(Received::Frame(_))));
}

#[test]
fn garbage_is_dropped_at_the_stop_marker() {
    let mut receiver = Receiver::new(ChecksumPolicy::Strict);
    assert!(matches!(receiver.push(0x03), Received::Dropped(ZigateError::ShortFrame)));
    let events = feed(&mut receiver, &[9, 9, 9, 9, 9, 9, 9, 0x03]);
    assert!(matches!(events.last(), Some(Received::Dropped(ZigateError::BadMarker))));
    assert!(receiver.msg.is_empty());
    let events = feed(&mut receiver, &[0x01, 0x80, 0x11, 0x12, 0x13, 0x14, 0x15, 0x03]);
    assert!(matches!(events.last(), Some(Received::Dropped(ZigateError::LengthMismatch))));
}

#[test]
fn a_wrong_checksum_is_dropped_or_marked() {
    let mut raw = version_frame();
    raw[8] ^= 0x80;
    let mut strict = Receiver::new(ChecksumPolicy::Strict);
    let events = feed(&mut strict, &raw);
    assert!(matches!(events.last(), Some(Received::Dropped(ZigateError::BadChecksum))));
    let mut lenient = Receiver::new(ChecksumPolicy::Warn);
    let events = feed(&mut lenient, &raw);
    match events.last() {
        Some(Received::Suspect(cmd)) => {
            assert_eq!(cmd.msg_type, 0x8010);
            assert_eq!(cmd.data, vec![0x00, 0x02, 0x00, 0x0A]);
        }
        _ => panic!("not delivered"),
    }
    let events = feed(&mut lenient, &version_frame());
    assert!(matches!(events.last(), Some(Received::Frame(_))));
}
