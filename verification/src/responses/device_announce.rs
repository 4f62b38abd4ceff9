//! The announcement that a device sends when it joins the network.

use crate::command::{Command, Frame};
use crate::error::ZigateError;
use crate::responses::Response;
use crate::wire::{be16, be64_at, reader, take_u16, take_u64, take_u8};
use vstd::prelude::*;

verus! {

/// Payload: short address, 64-bit IEEE address, MAC capability, flags, and
/// optionally one byte of rejoin information, taken as 0 where it is absent.
#[derive(Clone, Copy, Debug, PartialEq, Eq, Structural)]
pub struct DeviceAnnounce {
    pub short_address: u16,
    pub ieee_address: u64,
    pub mac_capability: u8,
    pub flags: u8,
    pub rejoin_info: u8,
}

impl View for DeviceAnnounce {
    type V = DeviceAnnounce;

    open spec fn view(&self) -> DeviceAnnounce {
        *self
    }
}

impl Response for DeviceAnnounce {
    open spec fn parse(f: Frame) -> Option<DeviceAnnounce> {
        let p = f.payload;
        if p.len() < 12 {
            None
        } else {
            Some(
                DeviceAnnounce {
                    short_address: be16(p[0], p[1]),
                    ieee_address: be64_at(p, 2),
                    mac_capability: p[10],
                    flags: p[11],
                    rejoin_info: if p.len() >= 13 {
                        p[12]
                    } else {
                        0
                    },
                },
            )
        }
    }

    fn from_command(cmd: &Command) -> (r: Result<DeviceAnnounce, ZigateError>) {
        let mut buf = reader(&cmd.data);
        let short_address = take_u16(&mut buf)?;
        let ieee_address = take_u64(&mut buf)?;
        let mac_capability = take_u8(&mut buf)?;
        let flags = take_u8(&mut buf)?;
        let rejoin_info = match take_u8(&mut buf) {
            Ok(rejoin_info) => rejoin_info,
            Err(_) => 0,
        };
        Ok(DeviceAnnounce { short_address, ieee_address, mac_capability, flags, rejoin_info })
    }
}

} // verus!
