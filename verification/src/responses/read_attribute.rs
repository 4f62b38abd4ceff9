//! The value of one attribute of a cluster, as a device reports it.

use crate::command::{Command, Frame};
use crate::error::ZigateError;
use crate::responses::Response;
use crate::wire::{be16, reader, take_bytes, take_u16, take_u8};
use vstd::prelude::*;
use vstd::utf8::{decode_utf8, valid_utf8};

verus! {

/// Payload: sequence number, source address, endpoint, cluster id, attribute
/// id, attribute status, attribute type, the size of the value, and the
/// value itself in that many bytes.
#[derive(Debug)]
pub struct ReadAttributeResponse {
    pub seq_num: u8,
    pub src_addr: u16,
    pub endpoint: u8,
    pub cluster_id: u16,
    pub attr_enum: u16,
    pub attr_status: u8,
    pub attr_data_type: u8,
    pub attr_size: u16,
    pub data: Vec<u8>,
}

/// An attribute report as a mathematical value.
pub struct AttributeReport {
    pub seq_num: u8,
    pub src_addr: u16,
    pub endpoint: u8,
    pub cluster_id: u16,
    pub attr_enum: u16,
    pub attr_status: u8,
    pub attr_data_type: u8,
    pub attr_size: u16,
    pub data: Seq<u8>,
}

impl View for ReadAttributeResponse {
    type V = AttributeReport;

    open spec fn view(&self) -> AttributeReport {
        AttributeReport {
            seq_num: self.seq_num,
            src_addr: self.src_addr,
            endpoint: self.endpoint,
            cluster_id: self.cluster_id,
            attr_enum: self.attr_enum,
            attr_status: self.attr_status,
            attr_data_type: self.attr_data_type,
            attr_size: self.attr_size,
            data: self.data@,
        }
    }
}

impl Response for ReadAttributeResponse {
    open spec fn parse(f: Frame) -> Option<AttributeReport> {
        let p = f.payload;
        if p.len() < 12 || p.len() < 12 + be16(p[10], p[11]) {
            None
        } else {
            Some(
                AttributeReport {
                    seq_num: p[0],
                    src_addr: be16(p[1], p[2]),
                    endpoint: p[3],
                    cluster_id: be16(p[4], p[5]),
                    attr_enum: be16(p[6], p[7]),
                    attr_status: p[8],
                    attr_data_type: p[9],
                    attr_size: be16(p[10], p[11]),
                    data: p.subrange(12, 12 + be16(p[10], p[11])),
                },
            )
        }
    }

    fn from_command(cmd: &Command) -> (r: Result<ReadAttributeResponse, ZigateError>) {
        let mut buf = reader(&cmd.data);
        let seq_num = take_u8(&mut buf)?;
        let src_addr = take_u16(&mut buf)?;
        let endpoint = take_u8(&mut buf)?;
        let cluster_id = take_u16(&mut buf)?;
        let attr_enum = take_u16(&mut buf)?;
        let attr_status = take_u8(&mut buf)?;
        let attr_data_type = take_u8(&mut buf)?;
        let attr_size = take_u16(&mut buf)?;
        let data = take_bytes(&mut buf, attr_size)?;
        Ok(
            ReadAttributeResponse {
                seq_num,
                src_addr,
                endpoint,
                cluster_id,
                attr_enum,
                attr_status,
                attr_data_type,
                attr_size,
                data,
            },
        )
    }
}

/// An attribute value read as one byte: its first byte, if it has one.
pub open spec fn value_as_u8(data: Seq<u8>) -> Option<u8> {
    if data.len() < 1 {
        None
    } else {
        Some(data[0])
    }
}

/// An attribute value read as a big-endian 16-bit number: its first two
/// bytes, if it has two.
pub open spec fn value_as_u16(data: Seq<u8>) -> Option<u16> {
    if data.len() < 2 {
        None
    } else {
        Some(be16(data[0], data[1]))
    }
}

/// An attribute value read as a flag: whether its first byte is not 0, if it
/// has one.
pub open spec fn value_as_bool(data: Seq<u8>) -> Option<bool> {
    if data.len() < 1 {
        None
    } else {
        Some(data[0] != 0)
    }
}

/// An attribute value read as text: the characters that it encodes, if it is
/// valid UTF-8.
pub open spec fn value_as_str(data: Seq<u8>) -> Option<Seq<char>> {
    if valid_utf8(data) {
        Some(decode_utf8(data))
    } else {
        None
    }
}

/// `core::str::Utf8Error`; only carried, never looked into.
#[verifier::external_type_specification]
#[verifier::external_body]
pub struct ExUtf8Error(core::str::Utf8Error);

/// `core::str::from_utf8`: the text that a byte string encodes, borrowed
/// from it, where the bytes are valid UTF-8; an error where they are not.
pub assume_specification<'a>[ core::str::from_utf8 ](v: &'a [u8]) -> (r: Result<
    &'a str,
    core::str::Utf8Error,
>)
    ensures
        valid_utf8(v@) ==> r is Ok && r->Ok_0@ == decode_utf8(v@),
        !valid_utf8(v@) ==> r is Err,
;

impl ReadAttributeResponse {
    /// The value as one byte.
    pub fn data_as_u8(&self) -> (r: Result<u8, ZigateError>)
        ensures
            match value_as_u8(self.data@) {
                Some(v) => r == Ok::<u8, ZigateError>(v),
                None => r == Err::<u8, ZigateError>(ZigateError::DecodeFailure),
            },
    {
        if self.data.len() < 1 {
            return Err(ZigateError::DecodeFailure);
        }
        Ok(self.data[0])
    }

    /// The value as a big-endian 16-bit number.
    pub fn data_as_u16(&self) -> (r: Result<u16, ZigateError>)
        ensures
            match value_as_u16(self.data@) {
                Some(v) => r == Ok::<u16, ZigateError>(v),
                None => r == Err::<u16, ZigateError>(ZigateError::DecodeFailure),
            },
    {
        if self.data.len() < 2 {
            return Err(ZigateError::DecodeFailure);
        }
        let hi = self.data[0];
        let lo = self.data[1];
        assert(((hi as u16) << 8 | (lo as u16) & 0xff) == (hi as u16) * 256 + (lo as u16))
            by (bit_vector);
        Ok((hi as u16) << 8 | (lo as u16) & 0xff)
    }

    /// The value as a flag.
    pub fn data_as_bool(&self) -> (r: Result<bool, ZigateError>)
        ensures
            match value_as_bool(self.data@) {
                Some(v) => r == Ok::<bool, ZigateError>(v),
                None => r == Err::<bool, ZigateError>(ZigateError::DecodeFailure),
            },
    {
        if self.data.len() < 1 {
            return Err(ZigateError::DecodeFailure);
        }
        Ok(self.data[0] != 0)
    }

    /// The value as text.
    pub fn data_as_str(&self) -> (r: Result<&str, ZigateError>)
        ensures
            match value_as_str(self.data@) {
                Some(v) => r is Ok && r->Ok_0@ == v,
                None => r is Err && r->Err_0 == ZigateError::DecodeFailure,
            },
    {
        match core::str::from_utf8(self.data.as_slice()) {
            Ok(text) => Ok(text),
            Err(_) => Err(ZigateError::DecodeFailure),
        }
    }
}

} // verus!
