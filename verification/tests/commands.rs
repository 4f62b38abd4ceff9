use zigate::command::MessageType;
use zigate::commands;
use zigate::commands::DeviceType;
use zigate::error::ZigateError;

#[test]
fn bare_commands() {
    for (cmd, code) in [
        (commands::get_network_state(), 0x0009u16),
        (commands::get_version(), 0x0010),
        (commands::reset(), 0x0011),
        (commands::erase(), 0x0012),
        (commands::get_devices_list(), 0x0015),
        (commands::start_network(), 0x0024),
    ] {
        assert_eq!(cmd.msg_type, code);
        assert!(cmd.data.is_empty());
    }
}

#[test]
fn channel_mask_is_big_endian() {
    let cmd = commands::set_channel_mask(0x0123_4567);
    assert_eq!(cmd.msg_type, 0x0021);
    assert_eq!(cmd.data, vec![0x01, 0x23, 0x45, 0x67]);
    assert_eq!(commands::set_channel_mask(0x0000_0800).data, vec![0x00, 0x00, 0x08, 0x00]);
}

#[test]
fn device_type_byte() {
    let cmd = commands::set_device_type(DeviceType::Coordinator);
    assert_eq!(cmd.msg_type, 0x0023);
    assert_eq!(cmd.data, vec![0]);
    assert_eq!(commands::set_device_type(DeviceType::Router).data, vec![1]);
}

#[test]
fn discovery_requests() {
    let cmd = commands::active_endpoint_request(0x1234);
    assert_eq!(cmd.msg_type, 0x0045);
    assert_eq!(cmd.data, vec![0x12, 0x34]);
    let cmd = commands::simple_descriptor_request(0x1234, 3);
    assert_eq!(cmd.msg_type, 0x0043);
    assert_eq!(cmd.data, vec![0x12, 0x34, 0x03]);
    let cmd = commands::permit_join_request(0xFFFC, 30, 0);
    assert_eq!(cmd.msg_type, 0x0049);
    assert_eq!(cmd.data, vec![0xFF, 0xFC, 30, 0]);
}

#[test]
fn onoff_actions() {
    let cmd = commands::action_onoff(0xABCD, 1, 3, 2);
    assert_eq!(cmd.msg_type, 0x0092);
    assert_eq!(cmd.data, vec![2, 0xAB, 0xCD, 1, 3, 2]);
    let cmd = commands::action_onoff_timed(0xABCD, 1, 3, 1, 0x0102, 0x0304);
    assert_eq!(cmd.msg_type, 0x0093);
    assert_eq!(cmd.data, vec![2, 0xAB, 0xCD, 1, 3, 1, 0x01, 0x02, 0x03, 0x04]);
    let cmd = commands::action_onoff_effect(0xABCD, 1, 3, 0, 7, 9);
    assert_eq!(cmd.msg_type, 0x0094);
    assert_eq!(cmd.data, vec![2, 0xAB, 0xCD, 1, 3, 0, 7, 9]);
}

#[test]
fn level_actions() {
    let cmd = commands::action_move(0xABCD, 1, 3, 0, 1, 50);
    assert_eq!(cmd.msg_type, 0x0080);
    assert_eq!(cmd.data, vec![2, 0xAB, 0xCD, 1, 3, 0, 1, 50]);
    let cmd = commands::action_move_onoff(0xABCD, 1, 3, 1, 200, 0x000A);
    assert_eq!(cmd.msg_type, 0x0081);
    assert_eq!(cmd.data, vec![2, 0xAB, 0xCD, 1, 3, 1, 200, 0x00, 0x0A]);
}

#[test]
fn color_actions() {
    let cmd = commands::action_move_to_hue(0xABCD, 1, 3, 100, 0, 0x0102);
    assert_eq!(cmd.msg_type, MessageType::ActionMoveToHue.code());
    assert_eq!(cmd.data, vec![2, 0xAB, 0xCD, 1, 3, 100, 0, 0x01, 0x02]);
    let cmd = commands::action_move_to_saturation(0xABCD, 1, 3, 100, 0x0102);
    assert_eq!(cmd.msg_type, MessageType::ActionMoveToHue.code());
    assert_eq!(cmd.data, vec![2, 0xAB, 0xCD, 1, 3, 100, 0x01, 0x02]);
    let cmd = commands::action_move_to_hue_and_saturation(0xABCD, 1, 3, 100, 50, 0x0102);
    assert_eq!(cmd.msg_type, MessageType::ActionMoveToHueAndSaturation.code());
    assert_eq!(cmd.data, vec![2, 0xAB, 0xCD, 1, 3, 100, 50, 0x01, 0x02]);
    let cmd = commands::action_move_to_color(0xABCD, 1, 3, 0x1122, 0x3344, 0x0102);
    assert_eq!(cmd.msg_type, MessageType::ActionMoveToColor.code());
    assert_eq!(cmd.data, vec![2, 0xAB, 0xCD, 1, 3, 0x11, 0x22, 0x33, 0x44, 0x01, 0x02]);
    let cmd = commands::action_move_color_temp(0xABCD, 1, 3, 370, 10);
    assert_eq!(cmd.msg_type, MessageType::ActionMoveToColorTemp.code());
    assert_eq!(cmd.data, vec![2, 0xAB, 0xCD, 1, 3, 0x01, 0x72, 0x00, 0x0A]);
}

#[test]
fn read_attribute_requests() {
    let cmd =
        commands::read_attribute_request(0x1234, 1, 3, 0x0300, 0, 0, vec![0x0003, 0x0004]).unwrap();
    assert_eq!(cmd.msg_type, MessageType::ReadAttributeRequest.code());
    assert_eq!(
        cmd.data,
        vec![2, 0x12, 0x34, 1, 3, 0x03, 0x00, 0, 0, 0x00, 0x00, 2, 0x00, 0x03, 0x00, 0x04]
    );
    let cmd = commands::read_attribute_request(0x1234, 1, 3, 0x0006, 1, 0x115F, vec![]).unwrap();
    assert_eq!(cmd.data, vec![2, 0x12, 0x34, 1, 3, 0x00, 0x06, 1, 1, 0x11, 0x5F, 0]);
    let cmd = commands::simple_read_attribute_request(0x1234, 3, 0x0006, 0x0000);
    assert_eq!(cmd.data, vec![2, 0x12, 0x34, 1, 3, 0x00, 0x06, 0, 0, 0x00, 0x00, 1, 0x00, 0x00]);
    let cmd =
        commands::simple_read_attribute_request_vec(0x1234, 3, 0x0008, vec![0x0000, 0x0011]).unwrap();
    assert_eq!(
        cmd.data,
        vec![2, 0x12, 0x34, 1, 3, 0x00, 0x08, 0, 0, 0x00, 0x00, 2, 0x00, 0x00, 0x00, 0x11]
    );
}

#[test]
fn read_attribute_request_overflows_past_121_attributes() {
    let cmd = commands::read_attribute_request(1, 1, 1, 6, 0, 0, vec![7; 121]).unwrap();
    assert_eq!(cmd.data.len(), 254);
    assert_eq!(cmd.data[11], 121);
    assert_eq!(
        commands::read_attribute_request(1, 1, 1, 6, 0, 0, vec![7; 122]).unwrap_err(),
        ZigateError::PayloadOverflow
    );
    assert_eq!(
        commands::simple_read_attribute_request_vec(1, 1, 6, vec![7; 300]).unwrap_err(),
        ZigateError::PayloadOverflow
    );
}
