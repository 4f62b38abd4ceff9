//! The message registry and the framing codec.
//!
//! On the wire a frame is the start marker `0x01`, the escaped body, and the
//! stop marker `0x03`. The body is the message type and the payload length,
//! both 16-bit big-endian, a one-byte checksum, and the payload. The checksum
//! is the XOR of the four header bytes and of every payload byte. Escaping
//! replaces each body byte `b <= 0x10` by the pair `0x02, b ^ 0x10`, so that
//! neither marker occurs inside a frame.

use crate::error::ZigateError;
use crate::wire::{be16, be16_bytes, empty_buffer, hi8, lo8};
use bytebuffer::ByteBuffer;
use vstd::prelude::*;

verus! {

/// The kinds of message that the module and the driver exchange.
#[derive(Clone, Copy, Debug, PartialEq, Eq, Hash, Structural)]
pub enum MessageType {
    // Commands
    GetNetworkState,
    GetVersion,
    Reset,
    Erase,
    GetDevicesList,
    SetChannelMask,
    SetDeviceType,
    StartNetwork,
    SimpleDescriptorRequest,
    ActiveEndpoint,
    PermitJoinRequest,
    ActionMove,
    ActionMoveOnOff,
    ActionMoveStep,
    ActionOnOff,
    ActionOnOffTimed,
    ActionOnOffEffect,
    ActionMoveToHue,
    ActionMoveToHueAndSaturation,
    ActionMoveToColor,
    ActionMoveToColorTemp,
    ReadAttributeRequest,
    // Responses
    Status,
    VersionList,
    DevicesList,
    SimpleDescriptorResponse,
    ActiveEndpoints,
    ReadAttributeResponse,
    ReportIndividualAttributeResponse,
    RouterDiscoveryConfirm,
    // Sent by the module unasked
    DeviceAnnounce,
    /// Any code that is none of the above.
    Unknown(u16),
}

impl MessageType {
    /// The 16-bit code that stands for this kind on the wire.
    pub open spec fn spec_code(self) -> u16 {
        match self {
            MessageType::GetNetworkState => 0x0009,
            MessageType::GetVersion => 0x0010,
            MessageType::Reset => 0x0011,
            MessageType::Erase => 0x0012,
            MessageType::GetDevicesList => 0x0015,
            MessageType::SetChannelMask => 0x0021,
            MessageType::SetDeviceType => 0x0023,
            MessageType::StartNetwork => 0x0024,
            MessageType::SimpleDescriptorRequest => 0x0043,
            MessageType::ActiveEndpoint => 0x0045,
            MessageType::PermitJoinRequest => 0x0049,
            MessageType::ActionMove => 0x0080,
            MessageType::ActionMoveOnOff => 0x0081,
            MessageType::ActionMoveStep => 0x0082,
            MessageType::ActionOnOff => 0x0092,
            MessageType::ActionOnOffTimed => 0x0093,
            MessageType::ActionOnOffEffect => 0x0094,
            MessageType::ActionMoveToHue => 0x00B0,
            MessageType::ActionMoveToHueAndSaturation => 0x00B6,
            MessageType::ActionMoveToColor => 0x00B7,
            MessageType::ActionMoveToColorTemp => 0x00C0,
            MessageType::ReadAttributeRequest => 0x0100,
            MessageType::Status => 0x8000,
            MessageType::VersionList => 0x8010,
            MessageType::DevicesList => 0x8015,
            MessageType::SimpleDescriptorResponse => 0x8043,
            MessageType::ActiveEndpoints => 0x8045,
            MessageType::ReadAttributeResponse => 0x8100,
            MessageType::ReportIndividualAttributeResponse => 0x8102,
            MessageType::RouterDiscoveryConfirm => 0x8701,
            MessageType::DeviceAnnounce => 0x004D,
            MessageType::Unknown(code) => code,
        }
    }

    /// The kind that a 16-bit code stands for.
    pub open spec fn spec_from_u16(code: u16) -> MessageType {
        match code {
            0x0009 => MessageType::GetNetworkState,
            0x0010 => MessageType::GetVersion,
            0x0011 => MessageType::Reset,
            0x0012 => MessageType::Erase,
            0x0015 => MessageType::GetDevicesList,
            0x0021 => MessageType::SetChannelMask,
            0x0023 => MessageType::SetDeviceType,
            0x0024 => MessageType::StartNetwork,
            0x0043 => MessageType::SimpleDescriptorRequest,
            0x0045 => MessageType::ActiveEndpoint,
            0x0049 => MessageType::PermitJoinRequest,
            0x0080 => MessageType::ActionMove,
            0x0081 => MessageType::ActionMoveOnOff,
            0x0082 => MessageType::ActionMoveStep,
            0x0092 => MessageType::ActionOnOff,
            0x0093 => MessageType::ActionOnOffTimed,
            0x0094 => MessageType::ActionOnOffEffect,
            0x00B0 => MessageType::ActionMoveToHue,
            0x00B6 => MessageType::ActionMoveToHueAndSaturation,
            0x00B7 => MessageType::ActionMoveToColor,
            0x00C0 => MessageType::ActionMoveToColorTemp,
            0x0100 => MessageType::ReadAttributeRequest,
            0x8000 => MessageType::Status,
            0x8010 => MessageType::VersionList,
            0x8015 => MessageType::DevicesList,
            0x8043 => MessageType::SimpleDescriptorResponse,
            0x8045 => MessageType::ActiveEndpoints,
            0x8100 => MessageType::ReadAttributeResponse,
            0x8102 => MessageType::ReportIndividualAttributeResponse,
            0x8701 => MessageType::RouterDiscoveryConfirm,
            0x004D => MessageType::DeviceAnnounce,
            _ => MessageType::Unknown(code),
        }
    }

    /// Whether this value is how [`MessageType::from_u16`] names its code:
    /// every value is, but an `Unknown` that carries a registered code.
    pub open spec fn canonical(self) -> bool {
        Self::spec_from_u16(self.spec_code()) == self
    }

    /// Names a 16-bit code; a code outside the registry becomes `Unknown`.
    pub fn from_u16(msg_type: u16) -> (kind: MessageType)
        ensures
            kind == Self::spec_from_u16(msg_type),
            kind.spec_code() == msg_type,
            kind.canonical(),
    {
        match msg_type {
            0x0009 => MessageType::GetNetworkState,
            0x0010 => MessageType::GetVersion,
            0x0011 => MessageType::Reset,
            0x0012 => MessageType::Erase,
            0x0015 => MessageType::GetDevicesList,
            0x0021 => MessageType::SetChannelMask,
            0x0023 => MessageType::SetDeviceType,
            0x0024 => MessageType::StartNetwork,
            0x0043 => MessageType::SimpleDescriptorRequest,
            0x0045 => MessageType::ActiveEndpoint,
            0x0049 => MessageType::PermitJoinRequest,
            0x0080 => MessageType::ActionMove,
            0x0081 => MessageType::ActionMoveOnOff,
            0x0082 => MessageType::ActionMoveStep,
            0x0092 => MessageType::ActionOnOff,
            0x0093 => MessageType::ActionOnOffTimed,
            0x0094 => MessageType::ActionOnOffEffect,
            0x00B0 => MessageType::ActionMoveToHue,
            0x00B6 => MessageType::ActionMoveToHueAndSaturation,
            0x00B7 => MessageType::ActionMoveToColor,
            0x00C0 => MessageType::ActionMoveToColorTemp,
            0x0100 => MessageType::ReadAttributeRequest,
            0x8000 => MessageType::Status,
            0x8010 => MessageType::VersionList,
            0x8015 => MessageType::DevicesList,
            0x8043 => MessageType::SimpleDescriptorResponse,
            0x8045 => MessageType::ActiveEndpoints,
            0x8100 => MessageType::ReadAttributeResponse,
            0x8102 => MessageType::ReportIndividualAttributeResponse,
            0x8701 => MessageType::RouterDiscoveryConfirm,
            0x004D => MessageType::DeviceAnnounce,
            _ => MessageType::Unknown(msg_type),
        }
    }

    /// The 16-bit code of this kind.
    pub fn code(&self) -> (code: u16)
        ensures
            code == self.spec_code(),
    {
        match self {
            MessageType::GetNetworkState => 0x0009,
            MessageType::GetVersion => 0x0010,
            MessageType::Reset => 0x0011,
            MessageType::Erase => 0x0012,
            MessageType::GetDevicesList => 0x0015,
            MessageType::SetChannelMask => 0x0021,
            MessageType::SetDeviceType => 0x0023,
            MessageType::StartNetwork => 0x0024,
            MessageType::SimpleDescriptorRequest => 0x0043,
            MessageType::ActiveEndpoint => 0x0045,
            MessageType::PermitJoinRequest => 0x0049,
            MessageType::ActionMove => 0x0080,
            MessageType::ActionMoveOnOff => 0x0081,
            MessageType::ActionMoveStep => 0x0082,
            MessageType::ActionOnOff => 0x0092,
            MessageType::ActionOnOffTimed => 0x0093,
            MessageType::ActionOnOffEffect => 0x0094,
            MessageType::ActionMoveToHue => 0x00B0,
            MessageType::ActionMoveToHueAndSaturation => 0x00B6,
            MessageType::ActionMoveToColor => 0x00B7,
            MessageType::ActionMoveToColorTemp => 0x00C0,
            MessageType::ReadAttributeRequest => 0x0100,
            MessageType::Status => 0x8000,
            MessageType::VersionList => 0x8010,
            MessageType::DevicesList => 0x8015,
            MessageType::SimpleDescriptorResponse => 0x8043,
            MessageType::ActiveEndpoints => 0x8045,
            MessageType::ReadAttributeResponse => 0x8100,
            MessageType::ReportIndividualAttributeResponse => 0x8102,
            MessageType::RouterDiscoveryConfirm => 0x8701,
            MessageType::DeviceAnnounce => 0x004D,
            MessageType::Unknown(code) => *code,
        }
    }
}

/// Naming a code and taking the code of the name gives the code back, and
/// two distinct codes never get the same name.
pub proof fn lemma_message_type_code_roundtrip(a: u16, b: u16)
    ensures
        MessageType::spec_from_u16(a).spec_code() == a,
        MessageType::spec_from_u16(a) == MessageType::spec_from_u16(b) ==> a == b,
{
}

/// A frame as a mathematical value: a message type and a payload.
pub struct Frame {
    pub msg_type: u16,
    pub payload: Seq<u8>,
}

/// What one byte of a frame body becomes on the wire.
pub open spec fn escape_byte(b: u8) -> Seq<u8> {
    if b > 0x10 {
        seq![b]
    } else {
        seq![2u8, b ^ 0x10]
    }
}

/// The escaped form of a byte string: each byte escaped, in order.
pub open spec fn escape(s: Seq<u8>) -> Seq<u8>
    decreases s.len(),
{
    if s.len() == 0 {
        Seq::empty()
    } else {
        escape(s.drop_last()) + escape_byte(s.last())
    }
}

/// The byte string that an escaped string stands for. Every `0x02` is
/// dropped; every other byte is kept, XORed with `0x10` when the byte just
/// before it is a `0x02`.
pub open spec fn unescape(s: Seq<u8>) -> Seq<u8>
    decreases s.len(),
{
    if s.len() == 0 {
        Seq::empty()
    } else {
        let init = unescape(s.drop_last());
        let b = s.last();
        if b == 2 {
            init
        } else if s.len() >= 2 && s[s.len() - 2] == 2 {
            init.push(b ^ 0x10)
        } else {
            init.push(b)
        }
    }
}

/// The XOR of all bytes of a string; 0 for the empty string.
pub open spec fn xor_bytes(s: Seq<u8>) -> u8
    decreases s.len(),
{
    if s.len() == 0 {
        0
    } else {
        xor_bytes(s.drop_last()) ^ s.last()
    }
}

/// The payload length as the header states it: the low 16 bits of the length.
pub open spec fn stated_length(payload: Seq<u8>) -> u16 {
    (payload.len() % 0x1_0000) as u16
}

/// The checksum of a frame: the XOR of the two bytes of the message type, the
/// two bytes of the stated length, and every payload byte.
pub open spec fn checksum(f: Frame) -> u8 {
    hi8(f.msg_type) ^ lo8(f.msg_type) ^ hi8(stated_length(f.payload)) ^ lo8(
        stated_length(f.payload),
    ) ^ xor_bytes(f.payload)
}

/// The body of a frame before escaping: header, checksum, payload.
pub open spec fn frame_body(f: Frame) -> Seq<u8> {
    be16_bytes(f.msg_type) + be16_bytes(stated_length(f.payload)) + seq![checksum(f)] + f.payload
}

/// A frame as it travels: start marker, escaped body, stop marker.
pub open spec fn wire_bytes(f: Frame) -> Seq<u8> {
    seq![1u8] + escape(frame_body(f)) + seq![3u8]
}

/// What a raw byte string decodes to. With `strict` a frame whose stated
/// checksum is wrong is rejected; without it such a frame is still delivered.
pub open spec fn parse_wire(bytes: Seq<u8>, strict: bool) -> Result<Frame, ZigateError> {
    if bytes.len() < 7 {
        Err(ZigateError::ShortFrame)
    } else if bytes[0] != 1 || bytes.last() != 3 {
        Err(ZigateError::BadMarker)
    } else {
        let body = unescape(bytes.subrange(1, bytes.len() - 1));
        if body.len() < 5 {
            Err(ZigateError::ShortFrame)
        } else {
            let f = Frame { msg_type: be16(body[0], body[1]), payload: body.skip(5) };
            if f.payload.len() != be16(body[2], body[3]) {
                Err(ZigateError::LengthMismatch)
            } else if strict && body[4] != checksum(f) {
                Err(ZigateError::BadChecksum)
            } else {
                Ok(f)
            }
        }
    }
}

/// The checksum that a raw byte string states: the fifth byte of its
/// unescaped body. Meaningful where [`parse_wire`] delivers a frame.
pub open spec fn stated_checksum(bytes: Seq<u8>) -> u8 {
    unescape(bytes.subrange(1, bytes.len() - 1))[4]
}

/// Escapes a byte string for the wire.
pub fn transcode(data: &Vec<u8>) -> (msg: Vec<u8>)
    ensures
        msg@ == escape(data@),
{
    let mut msg: Vec<u8> = Vec::new();
    let mut i: usize = 0;
    while i < data.len()
        invariant
            i <= data.len(),
            msg@ == escape(data@.take(i as int)),
        decreases data.len() - i,
    {
        let byte = data[i];
        proof {
            assert(data@.take(i + 1).drop_last() == data@.take(i as int));
        }
        if byte > 0x10 {
            msg.push(byte);
        } else {
            msg.push(2u8);
            msg.push(byte ^ 0x10);
        }
        i += 1;
    }
    proof {
        assert(data@.take(data.len() as int) == data@);
    }
    msg
}

/// Reverses [`transcode`]; on any other input it follows [`unescape`].
pub fn decode(data: &[u8]) -> (msg: Vec<u8>)
    ensures
        msg@ == unescape(data@),
{
    let mut msg: Vec<u8> = Vec::new();
    let mut escaped = false;
    let mut i: usize = 0;
    while i < data.len()
        invariant
            i <= data.len(),
            msg@ == unescape(data@.take(i as int)),
            escaped == (i > 0 && data@[i - 1] == 2),
        decreases data.len() - i,
    {
        let byte = data[i];
        proof {
            assert(data@.take(i + 1).drop_last() == data@.take(i as int));
        }
        if byte == 2 {
            escaped = true;
        } else {
            if escaped {
                msg.push(byte ^ 0x10);
                escaped = false;
            } else {
                msg.push(byte);
            }
        }
        i += 1;
    }
    proof {
        assert(data@.take(data.len() as int) == data@);
    }
    msg
}

/// A frame held in memory: a message type and its payload bytes.
#[derive(Debug)]
pub struct Command {
    pub msg_type: u16,
    pub data: Vec<u8>,
}

impl View for Command {
    type V = Frame;

    open spec fn view(&self) -> Frame {
        Frame { msg_type: self.msg_type, payload: self.data@ }
    }
}

impl Clone for Command {
    fn clone(&self) -> (copy: Self)
        ensures
            copy@ == self@,
    {
        let data = self.data.clone();
        Command { msg_type: self.msg_type, data }
    }
}

/// Whether `got` is the outcome `expected`, frames compared by value.
pub open spec fn decodes_as(got: Result<Command, ZigateError>, expected: Result<Frame, ZigateError>) -> bool {
    match expected {
        Ok(f) => got is Ok && got->Ok_0@ == f,
        Err(e) => got is Err && got->Err_0 == e,
    }
}

/// What decoding a raw frame yields: the frame, and the length and the
/// checksum that its header states.
#[derive(Debug)]
pub struct Decoded {
    pub command: Command,
    pub stated_length: u16,
    pub stated_checksum: u8,
}

impl Decoded {
    /// Whether the stated checksum is the checksum of the frame.
    pub open spec fn spec_checksum_ok(&self) -> bool {
        self.stated_checksum == checksum(self.command@)
    }

    /// Whether the stated checksum is the checksum of the frame.
    pub fn checksum_ok(&self) -> (ok: bool)
        ensures
            ok == self.spec_checksum_ok(),
    {
        self.command.get_checksum() == self.stated_checksum
    }
}

impl Command {
    /// A command of the given type. Payloads longer than 255 bytes are
    /// refused: no command on this link carries more.
    pub fn new(msg_type: u16, data: Vec<u8>) -> (r: Result<Command, ZigateError>)
        ensures
            data@.len() <= 255 ==> r is Ok && r->Ok_0.msg_type == msg_type && r->Ok_0.data == data,
            data@.len() > 255 ==> r == Err::<Command, ZigateError>(ZigateError::PayloadOverflow),
    {
        if data.len() > 255 {
            return Err(ZigateError::PayloadOverflow);
        }
        Ok(Command { msg_type, data })
    }

    /// Decodes a raw frame, markers included, and rejects it when the
    /// checksum it states is wrong.
    pub fn from_raw(msg: &Vec<u8>) -> (r: Result<Command, ZigateError>)
        ensures
            decodes_as(r, parse_wire(msg@, true)),
    {
        let decoded = Command::from_raw_lenient(msg)?;
        if decoded.checksum_ok() {
            Ok(decoded.command)
        } else {
            Err(ZigateError::BadChecksum)
        }
    }

    /// Decodes a raw frame, markers included, and delivers it even when the
    /// checksum it states is wrong; the stated checksum comes with the
    /// frame, so that a caller can compare and warn.
    pub fn from_raw_lenient(msg: &Vec<u8>) -> (r: Result<Decoded, ZigateError>)
        ensures
            match parse_wire(msg@, false) {
                Ok(f) => {
                    &&& r is Ok
                    &&& r->Ok_0.command@ == f
                    &&& r->Ok_0.stated_length == f.payload.len()
                    &&& r->Ok_0.stated_checksum == stated_checksum(msg@)
                    &&& r->Ok_0.spec_checksum_ok() == (parse_wire(msg@, true) is Ok)
                },
                Err(e) => r is Err && r->Err_0 == e,
            },
    {
        if msg.len() < 7 {
            return Err(ZigateError::ShortFrame);
        }
        if msg[0] != 1 || msg[msg.len() - 1] != 3 {
            return Err(ZigateError::BadMarker);
        }
        let body = decode(&msg.as_slice()[1..msg.len() - 1]);
        if body.len() < 5 {
            return Err(ZigateError::ShortFrame);
        }
        let mut buf = ByteBuffer::from_bytes(body.as_slice());
        let msg_type = match buf.read_u16() {
            Ok(v) => v,
            Err(_) => { return Err(ZigateError::ShortFrame); },
        };
        let stated_length = match buf.read_u16() {
            Ok(v) => v,
            Err(_) => { return Err(ZigateError::ShortFrame); },
        };
        let stated_checksum = match buf.read_u8() {
            Ok(v) => v,
            Err(_) => { return Err(ZigateError::ShortFrame); },
        };
        if body.len() - 5 != stated_length as usize {
            return Err(ZigateError::LengthMismatch);
        }
        let data = match buf.read_bytes(stated_length as usize) {
            Ok(v) => v,
            Err(_) => { return Err(ZigateError::LengthMismatch); },
        };
        Ok(Decoded { command: Command { msg_type, data }, stated_length, stated_checksum })
    }

    /// The checksum that this frame carries on the wire.
    pub fn get_checksum(&self) -> (sum: u8)
        ensures
            sum == checksum(self@),
    {
        let len: u16 = (self.data.len() % 0x1_0000) as u16;
        let mut sum: u8 = 0;
        sum ^= (self.msg_type >> 8) as u8;
        sum ^= (self.msg_type & 0xff) as u8;
        sum ^= (len >> 8) as u8;
        sum ^= (len & 0xff) as u8;
        proof {
            let m = self.msg_type;
            assert((m >> 8) as u8 == (m / 256) as u8 && (m & 0xff) as u8 == (m % 256) as u8)
                by (bit_vector);
            assert((len >> 8) as u8 == (len / 256) as u8 && (len & 0xff) as u8 == (len % 256) as u8)
                by (bit_vector);
            let a = hi8(m);
            assert(0u8 ^ a == a) by (bit_vector);
        }
        let ghost header = sum;
        assert(header ^ 0u8 == header) by (bit_vector);
        let mut i: usize = 0;
        while i < self.data.len()
            invariant
                i <= self.data.len(),
                sum == header ^ xor_bytes(self.data@.take(i as int)),
            decreases self.data.len() - i,
        {
            let byte = self.data[i];
            proof {
                assert(self.data@.take(i + 1).drop_last() == self.data@.take(i as int));
                let x = xor_bytes(self.data@.take(i as int));
                assert((header ^ x) ^ byte == header ^ (x ^ byte)) by (bit_vector);
            }
            sum ^= byte;
            i += 1;
        }
        proof {
            assert(self.data@.take(self.data.len() as int) == self.data@);
        }
        sum
    }

    /// The frame as it is written to the link.
    pub fn serialize(&self) -> (msg: Vec<u8>)
        ensures
            msg@ == wire_bytes(self@),
    {
        let len: u16 = (self.data.len() % 0x1_0000) as u16;
        let mut buf = empty_buffer();
        buf.write_u16(self.msg_type);
        buf.write_u16(len);
        buf.write_u8(self.get_checksum());
        buf.write_bytes(self.data.as_slice());
        let body = buf.into_vec();
        assert(body@ == frame_body(self@));
        let mut msg = transcode(&body);
        msg.insert(0, 1);
        msg.push(3);
        msg
    }
}

/// An escaped byte is never a marker and never ends in the escape byte.
proof fn lemma_escape_byte_shape(b: u8)
    ensures
        1 <= escape_byte(b).len() <= 2,
        forall|i: int| 0 <= i < escape_byte(b).len() ==> escape_byte(b)[i] != 1 && escape_byte(b)[i] != 3,
        escape_byte(b).last() != 2,
        b <= 0x10 ==> (b ^ 0x10) ^ 0x10 == b,
{
    assert(b <= 0x10 ==> (b ^ 0x10) != 1 && (b ^ 0x10) != 2 && (b ^ 0x10) != 3 && (b ^ 0x10) ^ 0x10
        == b) by (bit_vector);
}

/// An escaped string is at least as long as the string and at most twice as
/// long, and it does not end in the escape byte.
pub proof fn lemma_escape_shape(s: Seq<u8>)
    ensures
        s.len() <= escape(s).len() <= 2 * s.len(),
        s.len() > 0 ==> escape(s).last() != 2,
    decreases s.len(),
{
    if s.len() > 0 {
        lemma_escape_shape(s.drop_last());
        lemma_escape_byte_shape(s.last());
    }
}

/// Unescaping a string followed by one more escaped byte yields exactly one
/// more byte than unescaping the string; where the string does not end in
/// the escape byte, that byte is the one that was escaped.
proof fn lemma_unescape_after_chunk(a: Seq<u8>, b: u8)
    ensures
        unescape(a + escape_byte(b)).len() == unescape(a).len() + 1,
        unescape(a + escape_byte(b)).drop_last() == unescape(a),
        (a.len() == 0 || a.last() != 2) ==> unescape(a + escape_byte(b)) == unescape(a).push(b),
{
    lemma_escape_byte_shape(b);
    if b > 0x10 {
        let t = a + seq![b];
        assert(t.drop_last() == a);
    } else {
        let x = b ^ 0x10;
        let t = a + seq![2u8, x];
        let m = a + seq![2u8];
        assert(t.drop_last() == m);
        assert(m.drop_last() == a);
        assert(unescape(m) == unescape(a));
    }
}

/// Unescaping undoes escaping: `unescape(escape(s)) == s` for every byte
/// string `s`.
pub proof fn lemma_escape_roundtrip(s: Seq<u8>)
    ensures
        unescape(escape(s)) == s,
    decreases s.len(),
{
    if s.len() > 0 {
        lemma_escape_roundtrip(s.drop_last());
        lemma_escape_shape(s.drop_last());
        lemma_unescape_after_chunk(escape(s.drop_last()), s.last());
        assert(s.drop_last().push(s.last()) == s);
    }
}

/// Neither frame marker occurs in an escaped string.
pub proof fn lemma_escape_has_no_marker(s: Seq<u8>)
    ensures
        forall|i: int| 0 <= i < escape(s).len() ==> escape(s)[i] != 1 && escape(s)[i] != 3,
    decreases s.len(),
{
    if s.len() > 0 {
        lemma_escape_has_no_marker(s.drop_last());
        lemma_escape_byte_shape(s.last());
        let p = escape(s.drop_last());
        let c = escape_byte(s.last());
        assert forall|i: int| 0 <= i < escape(s).len() implies escape(s)[i] != 1 && escape(s)[i]
            != 3 by {
            if i >= p.len() {
                assert(escape(s)[i] == c[i - p.len()]);
            }
        }
    }
}

/// Escaping is one-to-one: two strings with the same escaped form are equal.
pub proof fn lemma_escape_injective(s: Seq<u8>, t: Seq<u8>)
    requires
        escape(s) == escape(t),
    ensures
        s == t,
{
    lemma_escape_roundtrip(s);
    lemma_escape_roundtrip(t);
}

/// Encoding a frame and decoding the bytes gives the frame back, and the
/// checksum on the wire is the one that decoding computes: with a payload
/// whose length fits the 16-bit length field, decoding succeeds under the
/// strict and under the lenient checksum policy alike.
pub proof fn lemma_frame_roundtrip(f: Frame, strict: bool)
    requires
        f.payload.len() <= 0xFFFF,
    ensures
        parse_wire(wire_bytes(f), strict) == Ok::<Frame, ZigateError>(f),
{
    let body = frame_body(f);
    let w = wire_bytes(f);
    lemma_escape_shape(body);
    lemma_escape_roundtrip(body);
    assert(w.subrange(1, w.len() - 1) == escape(body));
    assert(body.skip(5) == f.payload);
    crate::wire::lemma_be16_of_bytes(f.msg_type);
    crate::wire::lemma_be16_of_bytes(stated_length(f.payload));
}

/// Overwriting one byte of an escaped string with a different value yields a
/// string that does not unescape to what was escaped.
proof fn lemma_escape_detects_change(u: Seq<u8>, i: int, v: u8)
    requires
        0 <= i < escape(u).len(),
        v != escape(u)[i],
    ensures
        unescape(escape(u).update(i, v)) != u,
    decreases u.len(),
{
    let p = escape(u.drop_last());
    let b = u.last();
    let c = escape_byte(b);
    let s = escape(u);
    let changed = s.update(i, v);
    lemma_escape_shape(u.drop_last());
    lemma_escape_roundtrip(u.drop_last());
    lemma_escape_byte_shape(b);
    if i < p.len() {
        // the change lies before the last escaped byte
        lemma_escape_detects_change(u.drop_last(), i, v);
        assert(changed == p.update(i, v) + c);
        lemma_unescape_after_chunk(p.update(i, v), b);
    } else if b > 0x10 {
        // the last byte stands for itself and was overwritten
        assert(changed.drop_last() == p);
    } else {
        let x = b ^ 0x10;
        assert(v != x ==> (v ^ 0x10) != b) by (bit_vector)
            requires
                x == b ^ 0x10,
        ;
        if i == p.len() {
            // the escape byte was overwritten: one byte more comes out
            let m = p + seq![v];
            assert(changed.drop_last() == m);
            assert(m.drop_last() == p);
            assert(unescape(m) == unescape(p).push(v));
        } else {
            // the byte behind the escape byte was overwritten: another
            // byte comes out, or none
            let m = p + seq![2u8];
            assert(changed.drop_last() == m);
            assert(m.drop_last() == p);
            assert(unescape(m) == unescape(p));
        }
    }
}

/// A frame body is determined by the frame: header and checksum are
/// functions of message type and payload.
proof fn lemma_body_of_parsed(body: Seq<u8>, f: Frame)
    requires
        body.len() >= 5,
        f.payload.len() <= 0xFFFF,
        f.msg_type == be16(body[0], body[1]),
        f.payload == body.skip(5),
        f.payload.len() == be16(body[2], body[3]),
        body[4] == checksum(f),
    ensures
        body == frame_body(f),
{
    crate::wire::lemma_bytes_of_be16(body[0], body[1]);
    crate::wire::lemma_bytes_of_be16(body[2], body[3]);
}

/// Corruption of a single byte never goes unnoticed under the strict
/// checksum policy: if any one byte of an encoded frame is replaced by a
/// different value (one flipped bit is such a replacement), the result is
/// either rejected or decodes to a frame that differs from the one encoded.
pub proof fn lemma_corruption_is_visible(f: Frame, i: int, v: u8)
    requires
        f.payload.len() <= 0xFFFF,
        0 <= i < wire_bytes(f).len(),
        v != wire_bytes(f)[i],
    ensures
        parse_wire(wire_bytes(f).update(i, v), true) != Ok::<Frame, ZigateError>(f),
{
    let body = frame_body(f);
    let w = wire_bytes(f);
    let changed = w.update(i, v);
    lemma_escape_shape(body);
    if 0 < i < w.len() - 1 {
        assert(changed.subrange(1, changed.len() - 1) == escape(body).update(i - 1, v));
        lemma_escape_detects_change(body, i - 1, v);
        let got = unescape(escape(body).update(i - 1, v));
        if parse_wire(changed, true) == Ok::<Frame, ZigateError>(f) {
            lemma_body_of_parsed(got, f);
        }
    }
}

} // verus!
