use zigate::command::Command;
use zigate::error::ZigateError;
use zigate::responses::{
    parse_response, ActiveEndpoints, DeviceAnnounce, DevicesList, ReadAttributeResponse, Response,
    ResponseBox, SimpleDescriptorResponse, Status, StatusCode, Unknown, VersionList,
};

fn frame(msg_type: u16, data: Vec<u8>) -> Command {
    Command { msg_type, data }
}

#[test]
fn status_layout() {
    let status = Status::from_command(&frame(0x8000, vec![0x00, 0x2A, 0x00, 0x10])).unwrap();
    assert_eq!(status.status, 0);
    assert_eq!(status.seq_num, 0x2A);
    assert_eq!(status.packet_type, 0x0010);
    let status = Status::from_command(&frame(0x8000, vec![5, 1, 0x00, 0x45, 9, 9])).unwrap();
    assert_eq!(status.packet_type, 0x0045);
    assert_eq!(
        Status::from_command(&frame(0x8000, vec![0, 1, 2])).unwrap_err(),
        ZigateError::DecodeFailure
    );
}

#[test]
fn status_codes() {
    let code = |status: u8| Status { status, seq_num: 0, packet_type: 0 }.code();
    assert_eq!(code(0), StatusCode::Success);
    assert_eq!(code(1), StatusCode::IncorrectParameters);
    assert_eq!(code(2), StatusCode::UnhandledCommand);
    assert_eq!(code(3), StatusCode::CommandFailed);
    assert_eq!(code(4), StatusCode::Busy);
    assert_eq!(code(5), StatusCode::StackAlreadyStarted);
    assert_eq!(code(6), StatusCode::Failed);
    assert_eq!(code(255), StatusCode::Failed);
}

#[test]
fn version_list_layout() {
    let v = VersionList::from_command(&frame(0x8010, vec![0x00, 0x02, 0x00, 0x0A])).unwrap();
    assert_eq!(v.major, 2);
    assert_eq!(v.installer, 10);
    let v = VersionList::from_command(&frame(0x8010, vec![0x03, 0x1E, 0x12, 0x34])).unwrap();
    assert_eq!(v.major, 0x031E);
    assert_eq!(v.installer, 0x1234);
    assert_eq!(
        VersionList::from_command(&frame(0x8010, vec![0, 2, 0])).unwrap_err(),
        ZigateError::DecodeFailure
    );
}

#[test]
fn device_announce_layout() {
    let payload = vec![
        0x12, 0x34, 0x00, 0x11, 0x22, 0x33, 0x44, 0x55, 0x66, 0xFF, 0x8E, 0x01, 0x02,
    ];
    let msg = DeviceAnnounce::from_command(&frame(0x004D, payload.clone())).unwrap();
    assert_eq!(msg.short_address, 0x1234);
    assert_eq!(msg.ieee_address, 0x0011_2233_4455_66FF);
    assert_eq!(msg.mac_capability, 0x8E);
    assert_eq!(msg.flags, 0x01);
    assert_eq!(msg.rejoin_info, 0x02);
    let msg = DeviceAnnounce::from_command(&frame(0x004D, payload[..12].to_vec())).unwrap();
    assert_eq!(msg.flags, 0x01);
    assert_eq!(msg.rejoin_info, 0);
    assert_eq!(
        DeviceAnnounce::from_command(&frame(0x004D, payload[..11].to_vec())).unwrap_err(),
        ZigateError::DecodeFailure
    );
    assert_eq!(
        DeviceAnnounce::from_command(&frame(0x004D, vec![0x12])).unwrap_err(),
        ZigateError::DecodeFailure
    );
}

#[test]
fn devices_list_layout() {
    let mut payload = vec![
        0x07, 0xAB, 0xCD, 0x01, 0x02, 0x03, 0x04, 0x05, 0x06, 0x07, 0x08, 0x01, 0x7F,
    ];
    payload.extend_from_slice(&[
        0x08, 0x00, 0x01, 0xFF, 0xEE, 0xDD, 0xCC, 0xBB, 0xAA, 0x99, 0x88, 0x00, 0xFF,
    ]);
    payload.extend_from_slice(&[0x09, 0x09, 0x09]);
    let list = DevicesList::from_command(&frame(0x8015, payload)).unwrap();
    assert_eq!(list.devices.len(), 2);
    assert_eq!(list.devices[0].id, 7);
    assert_eq!(list.devices[0].short_address, 0xABCD);
    assert_eq!(list.devices[0].ieee_address, 0x0102_0304_0506_0708);
    assert!(list.devices[0].power_source);
    assert_eq!(list.devices[0].link_quality, 0x7F);
    assert_eq!(list.devices[1].id, 8);
    assert_eq!(list.devices[1].short_address, 0x0001);
    assert_eq!(list.devices[1].ieee_address, 0xFFEE_DDCC_BBAA_9988);
    assert!(!list.devices[1].power_source);
    assert_eq!(list.devices[1].link_quality, 0xFF);
    let list = DevicesList::from_command(&frame(0x8015, vec![1; 12])).unwrap();
    assert!(list.devices.is_empty());
    let list = DevicesList::from_command(&frame(0x8015, vec![2; 13])).unwrap();
    assert_eq!(list.devices.len(), 1);
    assert!(!list.devices[0].power_source);
}

#[test]
fn active_endpoints_layout() {
    let msg =
        ActiveEndpoints::from_command(&frame(0x8045, vec![9, 0, 0x12, 0x34, 2, 1, 3])).unwrap();
    assert_eq!(msg.seq_num, 9);
    assert_eq!(msg.status, 0);
    assert_eq!(msg.address, 0x1234);
    assert_eq!(msg.endpoint_count, 2);
    assert_eq!(msg.endpoint_list, vec![1, 3]);
    let msg = ActiveEndpoints::from_command(&frame(0x8045, vec![9, 0, 0x12, 0x34, 0])).unwrap();
    assert!(msg.endpoint_list.is_empty());
    let msg =
        ActiveEndpoints::from_command(&frame(0x8045, vec![9, 0, 0x12, 0x34, 1, 5, 6])).unwrap();
    assert_eq!(msg.endpoint_list, vec![5]);
    assert_eq!(
        ActiveEndpoints::from_command(&frame(0x8045, vec![9, 0, 0x12, 0x34])).unwrap_err(),
        ZigateError::DecodeFailure
    );
    assert_eq!(
        ActiveEndpoints::from_command(&frame(0x8045, vec![9, 0, 0x12, 0x34, 2, 1])).unwrap_err(),
        ZigateError::DecodeFailure
    );
}

fn descriptor_payload() -> Vec<u8> {
    vec![
        0x05, 0x00, 0x12, 0x34, 0x14, 0x01, 0x01, 0x04, 0x02, 0x10, 0x2B, 0x03, 0x00, 0x00, 0x00,
        0x06, 0x03, 0x00, 0x02, 0x00, 0x19, 0xAB, 0xCD,
    ]
}

#[test]
fn simple_descriptor_layout() {
    let msg = SimpleDescriptorResponse::from_command(&frame(0x8043, descriptor_payload())).unwrap();
    assert_eq!(msg.seq_num, 5);
    assert_eq!(msg.status, 0);
    assert_eq!(msg.address, 0x1234);
    assert_eq!(msg.len, 0x14);
    assert_eq!(msg.endpoint, 1);
    assert_eq!(msg.profile, 0x0104);
    assert_eq!(msg.device_id, 0x0210);
    assert_eq!(msg.version, 0x2);
    assert_eq!(msg.reserved, 0xB);
    assert_eq!(msg.in_cluster_count, 3);
    assert_eq!(msg.in_cluster_list, vec![0x0000, 0x0006, 0x0300]);
    assert_eq!(msg.out_cluster_count, 2);
    assert_eq!(msg.out_cluster_list, vec![0x0019, 0xABCD]);
}

#[test]
fn simple_descriptor_truncated() {
    let full = descriptor_payload();
    for len in 0..full.len() {
        assert_eq!(
            SimpleDescriptorResponse::from_command(&frame(0x8043, full[..len].to_vec()))
                .unwrap_err(),
            ZigateError::DecodeFailure
        );
    }
    let mut longer = full.clone();
    longer.push(0x77);
    assert!(SimpleDescriptorResponse::from_command(&frame(0x8043, longer)).is_ok());
}

fn report(cluster: u16, attr: u16, data: &[u8]) -> Vec<u8> {
    let mut payload = vec![
        0x11,
        0x12,
        0x34,
        0x01,
        (cluster >> 8) as u8,
        cluster as u8,
        (attr >> 8) as u8,
        attr as u8,
        0x00,
        0x20,
        (data.len() >> 8) as u8,
        data.len() as u8,
    ];
    payload.extend_from_slice(data);
    payload
}

#[test]
fn read_attribute_layout() {
    let msg =
        ReadAttributeResponse::from_command(&frame(0x8100, report(0x0300, 0x400A, &[0x00, 0x1F])))
            .unwrap();
    assert_eq!(msg.seq_num, 0x11);
    assert_eq!(msg.src_addr, 0x1234);
    assert_eq!(msg.endpoint, 1);
    assert_eq!(msg.cluster_id, 0x0300);
    assert_eq!(msg.attr_enum, 0x400A);
    assert_eq!(msg.attr_status, 0);
    assert_eq!(msg.attr_data_type, 0x20);
    assert_eq!(msg.attr_size, 2);
    assert_eq!(msg.data, vec![0x00, 0x1F]);
    let mut payload = report(6, 0, &[1]);
    payload.push(0x99);
    let msg = ReadAttributeResponse::from_command(&frame(0x8100, payload)).unwrap();
    assert_eq!(msg.data, vec![1]);
    let mut payload = report(6, 0, &[1, 2, 3]);
    payload.pop();
    assert_eq!(
        ReadAttributeResponse::from_command(&frame(0x8100, payload)).unwrap_err(),
        ZigateError::DecodeFailure
    );
    assert_eq!(
        ReadAttributeResponse::from_command(&frame(0x8100, vec![0; 11])).unwrap_err(),
        ZigateError::DecodeFailure
    );
}

fn value(data: &[u8]) -> ReadAttributeResponse {
    ReadAttributeResponse::from_command(&frame(0x8100, report(0, 0, data))).unwrap()
}

#[test]
fn attribute_values() {
    assert_eq!(value(&[0x7F, 0x01]).data_as_u8(), Ok(0x7F));
    assert_eq!(value(&[]).data_as_u8(), Err(ZigateError::DecodeFailure));
    assert_eq!(value(&[0x01, 0x72]).data_as_u16(), Ok(370));
    assert_eq!(value(&[0xFF, 0xFE, 0x00]).data_as_u16(), Ok(0xFFFE));
    assert_eq!(value(&[0x01]).data_as_u16(), Err(ZigateError::DecodeFailure));
    assert_eq!(value(&[0x00]).data_as_bool(), Ok(false));
    assert_eq!(value(&[0x01]).data_as_bool(), Ok(true));
    assert_eq!(value(&[0x80, 0x00]).data_as_bool(), Ok(true));
    assert_eq!(value(&[]).data_as_bool(), Err(ZigateError::DecodeFailure));
    assert_eq!(value(b"IKEA of Sweden").data_as_str(), Ok("IKEA of Sweden"));
    assert_eq!(value("Zürich".as_bytes()).data_as_str(), Ok("Zürich"));
    assert_eq!(value(&[]).data_as_str(), Ok(""));
    assert_eq!(value(&[0x41, 0xFF]).data_as_str(), Err(ZigateError::DecodeFailure));
    assert_eq!(value(&[0xC3]).data_as_str(), Err(ZigateError::DecodeFailure));
}

#[test]
fn unknown_keeps_the_frame() {
    let msg = Unknown::from_command(&frame(0x8701, vec![1, 2, 3])).unwrap();
    assert_eq!(msg.msg_type, 0x8701);
    assert_eq!(msg.data, vec![1, 2, 3]);
}

#[test]
fn frames_are_parsed_by_message_type() {
    assert!(matches!(
        ResponseBox::from_command(&frame(0x8000, vec![0, 1, 0, 0x10])),
        Ok(ResponseBox::StatusBox(Status { status: 0, seq_num: 1, packet_type: 0x0010 }))
    ));
    assert!(matches!(
        ResponseBox::from_command(&frame(0x8010, vec![0, 2, 0, 10])),
        Ok(ResponseBox::VersionListBox(VersionList { major: 2, installer: 10 }))
    ));
    assert!(matches!(
        ResponseBox::from_command(&frame(0x004D, vec![0; 12])),
        Ok(ResponseBox::DeviceAnnounceBox(_))
    ));
    assert!(matches!(
        ResponseBox::from_command(&frame(0x8015, vec![])),
        Ok(ResponseBox::DevicesListBox(_))
    ));
    assert!(matches!(
        ResponseBox::from_command(&frame(0x8045, vec![0, 0, 0, 1, 0])),
        Ok(ResponseBox::ActiveEndpointsBox(_))
    ));
    assert!(matches!(
        ResponseBox::from_command(&frame(0x8043, descriptor_payload())),
        Ok(ResponseBox::SimpleDescriptorResponseBox(_))
    ));
    assert!(matches!(
        ResponseBox::from_command(&frame(0x8100, report(6, 0, &[1]))),
        Ok(ResponseBox::ReadAttributeResponseBox(_))
    ));
    assert!(matches!(
        ResponseBox::from_command(&frame(0x8102, report(6, 0, &[1]))),
        Ok(ResponseBox::ReportIndividualAttributeResponseBox(_))
    ));
    assert!(matches!(
        ResponseBox::from_command(&frame(0x8701, vec![])),
        Ok(ResponseBox::UnknownBox(_))
    ));
    assert!(matches!(
        ResponseBox::from_command(&frame(0x0010, vec![9])),
        Ok(ResponseBox::UnknownBox(_))
    ));
    assert!(matches!(
        ResponseBox::from_command(&frame(0x8010, vec![0, 2])),
        Err(ZigateError::DecodeFailure)
    ));
    assert!(matches!(
        parse_response(&frame(0x8045, vec![0, 0, 0, 1, 3, 1])),
        Err(ZigateError::DecodeFailure)
    ));
    assert!(matches!(
        parse_response(&frame(0x8000, vec![1, 1, 0, 0x45])),
        Ok(ResponseBox::StatusBox(_))
    ));
}
