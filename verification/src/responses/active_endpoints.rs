//! The endpoints that a device reports as active.

use crate::command::{Command, Frame};
use crate::error::ZigateError;
use crate::responses::Response;
use crate::wire::{be16, reader, reading, take_u16, take_u8};
use vstd::prelude::*;

verus! {

/// Payload: sequence number, status, short address, a count, and that many
/// endpoint ids of one byte each.
#[derive(Debug)]
pub struct ActiveEndpoints {
    pub seq_num: u8,
    pub status: u8,
    pub address: u16,
    pub endpoint_count: u8,
    pub endpoint_list: Vec<u8>,
}

/// An active-endpoints response as a mathematical value.
pub struct ActiveEndpointsView {
    pub seq_num: u8,
    pub status: u8,
    pub address: u16,
    pub endpoint_count: u8,
    pub endpoint_list: Seq<u8>,
}

impl View for ActiveEndpoints {
    type V = ActiveEndpointsView;

    open spec fn view(&self) -> ActiveEndpointsView {
        ActiveEndpointsView {
            seq_num: self.seq_num,
            status: self.status,
            address: self.address,
            endpoint_count: self.endpoint_count,
            endpoint_list: self.endpoint_list@,
        }
    }
}

impl Response for ActiveEndpoints {
    open spec fn parse(f: Frame) -> Option<ActiveEndpointsView> {
        let p = f.payload;
        if p.len() < 5 || p.len() < 5 + p[4] {
            None
        } else {
            Some(
                ActiveEndpointsView {
                    seq_num: p[0],
                    status: p[1],
                    address: be16(p[2], p[3]),
                    endpoint_count: p[4],
                    endpoint_list: p.subrange(5, 5 + p[4]),
                },
            )
        }
    }

    fn from_command(cmd: &Command) -> (r: Result<ActiveEndpoints, ZigateError>) {
        let mut buf = reader(&cmd.data);
        let seq_num = take_u8(&mut buf)?;
        let status = take_u8(&mut buf)?;
        let address = take_u16(&mut buf)?;
        let endpoint_count = take_u8(&mut buf)?;
        let mut endpoint_list: Vec<u8> = Vec::new();
        let mut i: u8 = 0;
        while i < endpoint_count
            invariant
                i <= endpoint_count,
                cmd.data@.len() >= 5,
                endpoint_count == cmd.data@[4],
                reading(buf, cmd.data@, 5 + i),
                5 + i <= cmd.data@.len(),
                endpoint_list@ == cmd.data@.subrange(5, 5 + i),
            decreases endpoint_count - i,
        {
            let endpoint = take_u8(&mut buf)?;
            endpoint_list.push(endpoint);
            i += 1;
        }
        Ok(ActiveEndpoints { seq_num, status, address, endpoint_count, endpoint_list })
    }
}

} // verus!
