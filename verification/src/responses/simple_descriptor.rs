//! The description of one endpoint: its profile and its cluster lists.

use crate::command::{Command, Frame};
use crate::error::ZigateError;
use crate::responses::Response;
use crate::wire::{be16, reader, reading, take_u16, take_u8};
use bytebuffer::ByteBuffer;
use vstd::prelude::*;

verus! {

/// Payload: sequence number, status, short address, length, endpoint,
/// profile, device id, one byte with the device version in its high half,
/// then the input clusters and the output clusters, each as a count followed
/// by that many 16-bit cluster ids.
#[derive(Debug)]
pub struct SimpleDescriptorResponse {
    pub seq_num: u8,
    pub status: u8,
    pub address: u16,
    pub len: u8,
    pub endpoint: u8,
    pub profile: u16,
    pub device_id: u16,
    /// The high four bits of the flags byte.
    pub version: u8,
    /// The low four bits of the flags byte.
    pub reserved: u8,
    pub in_cluster_count: u8,
    pub in_cluster_list: Vec<u16>,
    pub out_cluster_count: u8,
    pub out_cluster_list: Vec<u16>,
}

/// A simple-descriptor response as a mathematical value.
pub struct SimpleDescriptorView {
    pub seq_num: u8,
    pub status: u8,
    pub address: u16,
    pub len: u8,
    pub endpoint: u8,
    pub profile: u16,
    pub device_id: u16,
    pub version: u8,
    pub reserved: u8,
    pub in_cluster_count: u8,
    pub in_cluster_list: Seq<u16>,
    pub out_cluster_count: u8,
    pub out_cluster_list: Seq<u16>,
}

impl View for SimpleDescriptorResponse {
    type V = SimpleDescriptorView;

    open spec fn view(&self) -> SimpleDescriptorView {
        SimpleDescriptorView {
            seq_num: self.seq_num,
            status: self.status,
            address: self.address,
            len: self.len,
            endpoint: self.endpoint,
            profile: self.profile,
            device_id: self.device_id,
            version: self.version,
            reserved: self.reserved,
            in_cluster_count: self.in_cluster_count,
            in_cluster_list: self.in_cluster_list@,
            out_cluster_count: self.out_cluster_count,
            out_cluster_list: self.out_cluster_list@,
        }
    }
}

/// The `count` 16-bit values that start at byte `at` of a payload.
pub open spec fn be16_list(p: Seq<u8>, at: int, count: int) -> Seq<u16> {
    Seq::new(count as nat, |i: int| be16(p[at + 2 * i], p[at + 2 * i + 1]))
}

/// Reads `count` 16-bit values.
fn take_u16_list(buf: &mut ByteBuffer, count: u8, Ghost(p): Ghost<Seq<u8>>, Ghost(at): Ghost<int>) -> (r:
    Result<Vec<u16>, ZigateError>)
    requires
        reading(*old(buf), p, at),
        0 <= at <= p.len(),
    ensures
        match r {
            Ok(list) => {
                &&& at + 2 * count <= p.len()
                &&& list@ == be16_list(p, at, count as int)
                &&& reading(*final(buf), p, at + 2 * count)
            },
            Err(e) => e == ZigateError::DecodeFailure && at + 2 * count > p.len(),
        },
{
    let mut list: Vec<u16> = Vec::new();
    let mut i: u8 = 0;
    while i < count
        invariant
            i <= count,
            at >= 0,
            reading(*buf, p, at + 2 * i),
            at + 2 * i <= p.len(),
            list@ == be16_list(p, at, i as int),
        decreases count - i,
    {
        let id = take_u16(buf)?;
        list.push(id);
        i += 1;
    }
    Ok(list)
}

impl Response for SimpleDescriptorResponse {
    open spec fn parse(f: Frame) -> Option<SimpleDescriptorView> {
        let p = f.payload;
        if p.len() < 12 || p.len() < 13 + 2 * p[11] {
            None
        } else {
            let outs = 12 + 2 * p[11];
            if p.len() < outs + 1 + 2 * p[outs] {
                None
            } else {
                Some(
                    SimpleDescriptorView {
                        seq_num: p[0],
                        status: p[1],
                        address: be16(p[2], p[3]),
                        len: p[4],
                        endpoint: p[5],
                        profile: be16(p[6], p[7]),
                        device_id: be16(p[8], p[9]),
                        version: p[10] / 16,
                        reserved: p[10] % 16,
                        in_cluster_count: p[11],
                        in_cluster_list: be16_list(p, 12, p[11] as int),
                        out_cluster_count: p[outs],
                        out_cluster_list: be16_list(p, outs + 1, p[outs] as int),
                    },
                )
            }
        }
    }

    fn from_command(cmd: &Command) -> (r: Result<SimpleDescriptorResponse, ZigateError>) {
        let mut buf = reader(&cmd.data);
        let seq_num = take_u8(&mut buf)?;
        let status = take_u8(&mut buf)?;
        let address = take_u16(&mut buf)?;
        let len = take_u8(&mut buf)?;
        let endpoint = take_u8(&mut buf)?;
        let profile = take_u16(&mut buf)?;
        let device_id = take_u16(&mut buf)?;
        let flags = take_u8(&mut buf)?;
        let version = flags >> 4;
        let reserved = flags & 0x0f;
        assert(flags >> 4 == flags / 16 && flags & 0x0f == flags % 16) by (bit_vector);
        let in_cluster_count = take_u8(&mut buf)?;
        let in_cluster_list = take_u16_list(&mut buf, in_cluster_count, Ghost(cmd.data@), Ghost(12))?;
        let out_cluster_count = take_u8(&mut buf)?;
        let out_cluster_list = take_u16_list(
            &mut buf,
            out_cluster_count,
            Ghost(cmd.data@),
            Ghost(13 + 2 * in_cluster_count),
        )?;
        Ok(
            SimpleDescriptorResponse {
                seq_num,
                status,
                address,
                len,
                endpoint,
                profile,
                device_id,
                version,
                reserved,
                in_cluster_count,
                in_cluster_list,
                out_cluster_count,
                out_cluster_list,
            },
        )
    }
}

} // verus!
