//! Builders for the commands that the driver sends.
//!
//! Every multi-byte field of a payload is big-endian. Commands that act on an
//! endpoint start with the address mode (always 2, a short address), the
//! short address of the device, and the source and destination endpoints.

use crate::command::{Command, Frame, MessageType};
use crate::error::ZigateError;
use crate::wire::{be16_bytes, be32_bytes};
use byteorder::{BigEndian, WriteBytesExt};
use vstd::prelude::*;

verus! {

/// `byteorder::WriteBytesExt::write_u16` with `BigEndian`, on a vector, to
/// which `std` writes by appending: the two bytes of `n` are appended, most
/// significant first, and the call succeeds.
#[verifier::external_body]
fn write_u16_be(data: &mut Vec<u8>, n: u16) -> (r: Result<(), std::io::Error>)
    ensures
        r is Ok,
        final(data)@ == old(data)@ + be16_bytes(n),
{
    data.write_u16::<BigEndian>(n)
}

/// `byteorder::WriteBytesExt::write_u32` with `BigEndian`, on a vector, to
/// which `std` writes by appending: the four bytes of `n` are appended, most
/// significant first, and the call succeeds.
#[verifier::external_body]
fn write_u32_be(data: &mut Vec<u8>, n: u32) -> (r: Result<(), std::io::Error>)
    ensures
        r is Ok,
        final(data)@ == old(data)@ + be32_bytes(n),
{
    data.write_u32::<BigEndian>(n)
}

/// Appends a 16-bit value, most significant byte first.
fn push_u16(data: &mut Vec<u8>, n: u16)
    ensures
        final(data)@ == old(data)@ + be16_bytes(n),
        final(data)@.len() == old(data)@.len() + 2,
{
    let _ = write_u16_be(data, n);
}

/// Appends a 32-bit value, most significant byte first.
fn push_u32(data: &mut Vec<u8>, n: u32)
    ensures
        final(data)@ == old(data)@ + be32_bytes(n),
{
    let _ = write_u32_be(data, n);
}

/// The frame of a command of the given kind with the given payload.
pub open spec fn frame_of(kind: MessageType, payload: Seq<u8>) -> Frame {
    Frame { msg_type: kind.spec_code(), payload }
}

/// How a payload that acts on an endpoint starts: address mode 2, the short
/// address, the source endpoint, the destination endpoint.
pub open spec fn addressed(addr: u16, src_endpoint: u8, dst_endpoint: u8) -> Seq<u8> {
    seq![2u8] + be16_bytes(addr) + seq![src_endpoint, dst_endpoint]
}

/// Starts a payload that acts on an endpoint.
fn address(addr: u16, src_endpoint: u8, dst_endpoint: u8) -> (data: Vec<u8>)
    ensures
        data@ == addressed(addr, src_endpoint, dst_endpoint),
        data@.len() == 5,
{
    let mut data: Vec<u8> = Vec::new();
    data.push(2);
    push_u16(&mut data, addr);
    data.push(src_endpoint);
    data.push(dst_endpoint);
    data
}

/// A command of the given kind with an empty payload.
fn bare(kind: MessageType) -> (cmd: Command)
    ensures
        cmd@ == frame_of(kind, Seq::empty()),
{
    let cmd = Command { msg_type: kind.code(), data: Vec::new() };
    cmd
}

/// A command of the given kind with the given payload, which is short
/// enough for a command.
fn built(kind: MessageType, data: Vec<u8>) -> (cmd: Command)
    requires
        data@.len() <= 255,
    ensures
        cmd@ == frame_of(kind, data@),
{
    Command::new(kind.code(), data).unwrap()
}

/// Asks for the state of the network.
pub fn get_network_state() -> (cmd: Command)
    ensures
        cmd@ == frame_of(MessageType::GetNetworkState, Seq::empty()),
{
    bare(MessageType::GetNetworkState)
}

/// Asks for the firmware version.
pub fn get_version() -> (cmd: Command)
    ensures
        cmd@ == frame_of(MessageType::GetVersion, Seq::empty()),
{
    bare(MessageType::GetVersion)
}

/// Resets the module.
pub fn reset() -> (cmd: Command)
    ensures
        cmd@ == frame_of(MessageType::Reset, Seq::empty()),
{
    bare(MessageType::Reset)
}

/// Erases what the module has stored.
pub fn erase() -> (cmd: Command)
    ensures
        cmd@ == frame_of(MessageType::Erase, Seq::empty()),
{
    bare(MessageType::Erase)
}

/// Asks for the list of known devices.
pub fn get_devices_list() -> (cmd: Command)
    ensures
        cmd@ == frame_of(MessageType::GetDevicesList, Seq::empty()),
{
    bare(MessageType::GetDevicesList)
}

/// Sets the radio channels that the module may use. Payload: the 32-bit mask.
pub fn set_channel_mask(mask: u32) -> (cmd: Command)
    ensures
        cmd@ == frame_of(MessageType::SetChannelMask, be32_bytes(mask)),
{
    let mut data: Vec<u8> = Vec::new();
    push_u32(&mut data, mask);
    built(MessageType::SetChannelMask, data)
}

/// The role of the module in the network.
#[derive(Clone, Copy, Debug, PartialEq, Eq, Structural)]
pub enum DeviceType {
    Coordinator,
    Router,
}

impl DeviceType {
    /// The byte that stands for the role: 0 for a coordinator, 1 for a router.
    pub open spec fn spec_code(self) -> u8 {
        match self {
            DeviceType::Coordinator => 0,
            DeviceType::Router => 1,
        }
    }
}

/// Sets the role of the module. Payload: one byte for the role.
pub fn set_device_type(device_type: DeviceType) -> (cmd: Command)
    ensures
        cmd@ == frame_of(MessageType::SetDeviceType, seq![device_type.spec_code()]),
{
    let code: u8 = match device_type {
        DeviceType::Coordinator => 0,
        DeviceType::Router => 1,
    };
    let mut data: Vec<u8> = Vec::new();
    data.push(code);
    built(MessageType::SetDeviceType, data)
}

/// Starts the network.
pub fn start_network() -> (cmd: Command)
    ensures
        cmd@ == frame_of(MessageType::StartNetwork, Seq::empty()),
{
    bare(MessageType::StartNetwork)
}

/// Asks a device to describe one endpoint. Payload: short address, endpoint.
pub fn simple_descriptor_request(addr: u16, endpoint: u8) -> (cmd: Command)
    ensures
        cmd@ == frame_of(MessageType::SimpleDescriptorRequest, be16_bytes(addr) + seq![endpoint]),
{
    let mut data: Vec<u8> = Vec::new();
    push_u16(&mut data, addr);
    data.push(endpoint);
    assert(data@ =~= be16_bytes(addr) + seq![endpoint]);
    built(MessageType::SimpleDescriptorRequest, data)
}

/// Asks a device for its active endpoints. Payload: short address.
pub fn active_endpoint_request(addr: u16) -> (cmd: Command)
    ensures
        cmd@ == frame_of(MessageType::ActiveEndpoint, be16_bytes(addr)),
{
    let mut data: Vec<u8> = Vec::new();
    push_u16(&mut data, addr);
    built(MessageType::ActiveEndpoint, data)
}

/// Lets devices join for a while. Payload: target address, interval in
/// seconds, trust-centre significance.
pub fn permit_join_request(addr: u16, interval: u8, tc_significance: u8) -> (cmd: Command)
    ensures
        cmd@ == frame_of(
            MessageType::PermitJoinRequest,
            be16_bytes(addr) + seq![interval, tc_significance],
        ),
{
    let mut data: Vec<u8> = Vec::new();
    push_u16(&mut data, addr);
    data.push(interval);
    data.push(tc_significance);
    assert(data@ =~= be16_bytes(addr) + seq![interval, tc_significance]);
    built(MessageType::PermitJoinRequest, data)
}

/// Moves the level up or down at a rate. Payload after the addressing:
/// command, mode (0 up, 1 down), rate.
pub fn action_move(addr: u16, src_endpoint: u8, dst_endpoint: u8, cmd: u8, mode: u8, rate: u8) -> (c:
    Command)
    ensures
        c@ == frame_of(
            MessageType::ActionMove,
            addressed(addr, src_endpoint, dst_endpoint) + seq![cmd, mode, rate],
        ),
{
    let mut data = address(addr, src_endpoint, dst_endpoint);
    data.push(cmd);
    data.push(mode);
    data.push(rate);
    assert(data@ =~= addressed(addr, src_endpoint, dst_endpoint) + seq![cmd, mode, rate]);
    built(MessageType::ActionMove, data)
}

/// Moves to a level, switching on or off with it. Payload after the
/// addressing: command, level, transition time.
pub fn action_move_onoff(
    addr: u16,
    src_endpoint: u8,
    dst_endpoint: u8,
    cmd: u8,
    level: u8,
    transition_time: u16,
) -> (c: Command)
    ensures
        c@ == frame_of(
            MessageType::ActionMoveOnOff,
            addressed(addr, src_endpoint, dst_endpoint) + seq![cmd, level] + be16_bytes(
                transition_time,
            ),
        ),
{
    let mut data = address(addr, src_endpoint, dst_endpoint);
    data.push(cmd);
    data.push(level);
    push_u16(&mut data, transition_time);
    assert(data@ =~= addressed(addr, src_endpoint, dst_endpoint) + seq![cmd, level] + be16_bytes(
        transition_time,
    ));
    built(MessageType::ActionMoveOnOff, data)
}

/// Switches off (0), on (1) or over (2). Payload after the addressing: command.
pub fn action_onoff(addr: u16, src_endpoint: u8, dst_endpoint: u8, cmd: u8) -> (c: Command)
    ensures
        c@ == frame_of(
            MessageType::ActionOnOff,
            addressed(addr, src_endpoint, dst_endpoint) + seq![cmd],
        ),
{
    let mut data = address(addr, src_endpoint, dst_endpoint);
    data.push(cmd);
    assert(data@ =~= addressed(addr, src_endpoint, dst_endpoint) + seq![cmd]);
    built(MessageType::ActionOnOff, data)
}

/// Switches on for a time. Payload after the addressing: command, on time,
/// off time.
pub fn action_onoff_timed(
    addr: u16,
    src_endpoint: u8,
    dst_endpoint: u8,
    cmd: u8,
    on_time: u16,
    off_time: u16,
) -> (c: Command)
    ensures
        c@ == frame_of(
            MessageType::ActionOnOffTimed,
            addressed(addr, src_endpoint, dst_endpoint) + seq![cmd] + be16_bytes(on_time)
                + be16_bytes(off_time),
        ),
{
    let mut data = address(addr, src_endpoint, dst_endpoint);
    data.push(cmd);
    push_u16(&mut data, on_time);
    push_u16(&mut data, off_time);
    assert(data@ =~= addressed(addr, src_endpoint, dst_endpoint) + seq![cmd] + be16_bytes(on_time)
        + be16_bytes(off_time));
    built(MessageType::ActionOnOffTimed, data)
}

/// Switches with an effect. Payload after the addressing: command, effect
/// id, effect gradient.
pub fn action_onoff_effect(
    addr: u16,
    src_endpoint: u8,
    dst_endpoint: u8,
    cmd: u8,
    effect_id: u8,
    effect_gradient: u8,
) -> (c: Command)
    ensures
        c@ == frame_of(
            MessageType::ActionOnOffEffect,
            addressed(addr, src_endpoint, dst_endpoint) + seq![cmd, effect_id, effect_gradient],
        ),
{
    let mut data = address(addr, src_endpoint, dst_endpoint);
    data.push(cmd);
    data.push(effect_id);
    data.push(effect_gradient);
    assert(data@ =~= addressed(addr, src_endpoint, dst_endpoint) + seq![
        cmd,
        effect_id,
        effect_gradient,
    ]);
    built(MessageType::ActionOnOffEffect, data)
}

/// Moves to a hue. Payload after the addressing: hue, direction, transition
/// time.
pub fn action_move_to_hue(
    addr: u16,
    src_endpoint: u8,
    dst_endpoint: u8,
    hue: u8,
    direction: u8,
    transition_time: u16,
) -> (c: Command)
    ensures
        c@ == frame_of(
            MessageType::ActionMoveToHue,
            addressed(addr, src_endpoint, dst_endpoint) + seq![hue, direction] + be16_bytes(
                transition_time,
            ),
        ),
{
    let mut data = address(addr, src_endpoint, dst_endpoint);
    data.push(hue);
    data.push(direction);
    push_u16(&mut data, transition_time);
    assert(data@ =~= addressed(addr, src_endpoint, dst_endpoint) + seq![hue, direction]
        + be16_bytes(transition_time));
    built(MessageType::ActionMoveToHue, data)
}

/// Moves to a saturation. It travels under the message type of the move to
/// a hue. Payload after the addressing: saturation, transition time.
pub fn action_move_to_saturation(
    addr: u16,
    src_endpoint: u8,
    dst_endpoint: u8,
    saturation: u8,
    transition_time: u16,
) -> (c: Command)
    ensures
        c@ == frame_of(
            MessageType::ActionMoveToHue,
            addressed(addr, src_endpoint, dst_endpoint) + seq![saturation] + be16_bytes(
                transition_time,
            ),
        ),
{
    let mut data = address(addr, src_endpoint, dst_endpoint);
    data.push(saturation);
    push_u16(&mut data, transition_time);
    assert(data@ =~= addressed(addr, src_endpoint, dst_endpoint) + seq![saturation] + be16_bytes(
        transition_time,
    ));
    built(MessageType::ActionMoveToHue, data)
}

/// Moves to a hue and a saturation. Payload after the addressing: hue,
/// saturation, transition time.
pub fn action_move_to_hue_and_saturation(
    addr: u16,
    src_endpoint: u8,
    dst_endpoint: u8,
    hue: u8,
    saturation: u8,
    transition_time: u16,
) -> (c: Command)
    ensures
        c@ == frame_of(
            MessageType::ActionMoveToHueAndSaturation,
            addressed(addr, src_endpoint, dst_endpoint) + seq![hue, saturation] + be16_bytes(
                transition_time,
            ),
        ),
{
    let mut data = address(addr, src_endpoint, dst_endpoint);
    data.push(hue);
    data.push(saturation);
    push_u16(&mut data, transition_time);
    assert(data@ =~= addressed(addr, src_endpoint, dst_endpoint) + seq![hue, saturation]
        + be16_bytes(transition_time));
    built(MessageType::ActionMoveToHueAndSaturation, data)
}

/// Moves to a colour in the XY plane. Payload after the addressing: x, y,
/// transition time.
pub fn action_move_to_color(
    addr: u16,
    src_endpoint: u8,
    dst_endpoint: u8,
    x: u16,
    y: u16,
    transition_time: u16,
) -> (c: Command)
    ensures
        c@ == frame_of(
            MessageType::ActionMoveToColor,
            addressed(addr, src_endpoint, dst_endpoint) + be16_bytes(x) + be16_bytes(y)
                + be16_bytes(transition_time),
        ),
{
    let mut data = address(addr, src_endpoint, dst_endpoint);
    push_u16(&mut data, x);
    push_u16(&mut data, y);
    push_u16(&mut data, transition_time);
    built(MessageType::ActionMoveToColor, data)
}

/// Moves to a colour temperature. Payload after the addressing: temperature,
/// transition time.
pub fn action_move_color_temp(
    addr: u16,
    src_endpoint: u8,
    dst_endpoint: u8,
    color_temp: u16,
    transition_time: u16,
) -> (c: Command)
    ensures
        c@ == frame_of(
            MessageType::ActionMoveToColorTemp,
            addressed(addr, src_endpoint, dst_endpoint) + be16_bytes(color_temp) + be16_bytes(
                transition_time,
            ),
        ),
{
    let mut data = address(addr, src_endpoint, dst_endpoint);
    push_u16(&mut data, color_temp);
    push_u16(&mut data, transition_time);
    built(MessageType::ActionMoveToColorTemp, data)
}

/// The attribute ids of a list, each in two bytes, one behind the other.
pub open spec fn attribute_bytes(attrs: Seq<u16>) -> Seq<u8>
    decreases attrs.len(),
{
    if attrs.len() == 0 {
        Seq::empty()
    } else {
        attribute_bytes(attrs.drop_last()) + be16_bytes(attrs.last())
    }
}

/// The most attributes that one request can ask for: with more the payload
/// would be longer than 255 bytes.
pub const MAX_ATTRIBUTES: usize = 121;

/// The payload of a request to read attributes: the addressing, cluster id,
/// direction, a flag that says whether a manufacturer code follows the
/// standard (0 for the code 0, else 1), the manufacturer code, the number of
/// attributes, and their ids.
pub open spec fn read_attribute_payload(
    addr: u16,
    src_endpoint: u8,
    dst_endpoint: u8,
    cluster_id: u16,
    direction: u8,
    manuf_id: u16,
    attrs: Seq<u16>,
) -> Seq<u8> {
    addressed(addr, src_endpoint, dst_endpoint) + be16_bytes(cluster_id) + seq![
        direction,
        if manuf_id == 0 {
            0u8
        } else {
            1u8
        },
    ] + be16_bytes(manuf_id) + seq![attrs.len() as u8] + attribute_bytes(attrs)
}

/// Two bytes for each attribute.
proof fn lemma_attribute_bytes_len(attrs: Seq<u16>)
    ensures
        attribute_bytes(attrs).len() == 2 * attrs.len(),
    decreases attrs.len(),
{
    if attrs.len() > 0 {
        lemma_attribute_bytes_len(attrs.drop_last());
    }
}

/// Asks a device for attributes of a cluster. With more than 121 attributes
/// the payload does not fit a command and the request is refused.
pub fn read_attribute_request(
    addr: u16,
    src_endpoint: u8,
    dst_endpoint: u8,
    cluster_id: u16,
    direction: u8,
    manuf_id: u16,
    attr_list: Vec<u16>,
) -> (r: Result<Command, ZigateError>)
    ensures
        attr_list@.len() <= 121 ==> r is Ok && r->Ok_0@ == frame_of(
            MessageType::ReadAttributeRequest,
            read_attribute_payload(
                addr,
                src_endpoint,
                dst_endpoint,
                cluster_id,
                direction,
                manuf_id,
                attr_list@,
            ),
        ),
        attr_list@.len() > 121 ==> r is Err && r->Err_0 == ZigateError::PayloadOverflow,
{
    if attr_list.len() > MAX_ATTRIBUTES {
        return Err(ZigateError::PayloadOverflow);
    }
    let mut data = address(addr, src_endpoint, dst_endpoint);
    push_u16(&mut data, cluster_id);
    data.push(direction);
    let manuf_spec: u8 = match manuf_id {
        0 => 0,
        _ => 1,
    };
    data.push(manuf_spec);
    push_u16(&mut data, manuf_id);
    let attr_len: u8 = attr_list.len() as u8;
    data.push(attr_len);
    let ghost head = data@;
    let mut i: usize = 0;
    while i < attr_list.len()
        invariant
            i <= attr_list.len(),
            head.len() == 12,
            data@ == head + attribute_bytes(attr_list@.take(i as int)),
        decreases attr_list.len() - i,
    {
        proof {
            assert(attr_list@.take(i + 1).drop_last() == attr_list@.take(i as int));
        }
        push_u16(&mut data, attr_list[i]);
        i += 1;
    }
    proof {
        assert(attr_list@.take(attr_list.len() as int) == attr_list@);
        lemma_attribute_bytes_len(attr_list@);
        assert(data@ =~= read_attribute_payload(
            addr,
            src_endpoint,
            dst_endpoint,
            cluster_id,
            direction,
            manuf_id,
            attr_list@,
        ));
    }
    Ok(built(MessageType::ReadAttributeRequest, data))
}

/// Asks a device for one attribute of a cluster, from endpoint 1, in the
/// direction from server to client, without a manufacturer code.
pub fn simple_read_attribute_request(addr: u16, endpoint: u8, cluster_id: u16, attr: u16) -> (cmd:
    Command)
    ensures
        cmd@ == frame_of(
            MessageType::ReadAttributeRequest,
            read_attribute_payload(addr, 1, endpoint, cluster_id, 0, 0, seq![attr]),
        ),
{
    let mut attrs: Vec<u16> = Vec::new();
    attrs.push(attr);
    read_attribute_request(addr, 1, endpoint, cluster_id, 0, 0, attrs).unwrap()
}

/// Asks a device for several attributes of a cluster, from endpoint 1, in
/// the direction from server to client, without a manufacturer code. With
/// more than 121 attributes the request is refused.
pub fn simple_read_attribute_request_vec(addr: u16, endpoint: u8, cluster_id: u16, attr: Vec<u16>) -> (r:
    Result<Command, ZigateError>)
    ensures
        attr@.len() <= 121 ==> r is Ok && r->Ok_0@ == frame_of(
            MessageType::ReadAttributeRequest,
            read_attribute_payload(addr, 1, endpoint, cluster_id, 0, 0, attr@),
        ),
        attr@.len() > 121 ==> r is Err && r->Err_0 == ZigateError::PayloadOverflow,
{
    read_attribute_request(addr, 1, endpoint, cluster_id, 0, 0, attr)
}

} // verus!
