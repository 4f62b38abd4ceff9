//! The list of devices that the module knows.

use crate::command::{Command, Frame};
use crate::error::ZigateError;
use crate::responses::Response;
use crate::wire::{be16, be64_at, reader, reading, take_u16, take_u64, take_u8};
use vstd::prelude::*;

verus! {

/// One record of a devices list.
#[derive(Clone, Copy, Debug, PartialEq, Eq, Structural)]
pub struct Device {
    pub id: u8,
    pub short_address: u16,
    pub ieee_address: u64,
    /// `true` for mains power, `false` for a battery.
    pub power_source: bool,
    pub link_quality: u8,
}

/// The length of one record in a devices list.
pub const RECORD_LEN: usize = 13;

/// The record that starts at byte `at` of a payload: id, short address,
/// IEEE address, power source (1 means mains), link quality.
pub open spec fn record_at(p: Seq<u8>, at: int) -> Device {
    Device {
        id: p[at],
        short_address: be16(p[at + 1], p[at + 2]),
        ieee_address: be64_at(p, at + 3),
        power_source: p[at + 11] == 1,
        link_quality: p[at + 12],
    }
}

/// Payload: records of 13 bytes each, one behind the other. Bytes behind the
/// last whole record are ignored.
#[derive(Debug)]
pub struct DevicesList {
    pub devices: Vec<Device>,
}

impl View for DevicesList {
    type V = Seq<Device>;

    open spec fn view(&self) -> Seq<Device> {
        self.devices@
    }
}

impl Response for DevicesList {
    open spec fn parse(f: Frame) -> Option<Seq<Device>> {
        Some(Seq::new(f.payload.len() / 13, |i: int| record_at(f.payload, 13 * i)))
    }

    fn from_command(cmd: &Command) -> (r: Result<DevicesList, ZigateError>) {
        let mut buf = reader(&cmd.data);
        let mut remaining_len: usize = cmd.data.len();
        let mut devices: Vec<Device> = Vec::new();
        while remaining_len >= RECORD_LEN
            invariant
                remaining_len + 13 * devices@.len() == cmd.data@.len(),
                reading(buf, cmd.data@, 13 * devices@.len() as int),
                forall|i: int|
                    0 <= i < devices@.len() ==> devices@[i] == record_at(cmd.data@, 13 * i),
            decreases remaining_len,
        {
            let id = take_u8(&mut buf)?;
            let short_address = take_u16(&mut buf)?;
            let ieee_address = take_u64(&mut buf)?;
            let power_source = take_u8(&mut buf)? == 1;
            let link_quality = take_u8(&mut buf)?;
            devices.push(Device { id, short_address, ieee_address, power_source, link_quality });
            remaining_len -= RECORD_LEN;
        }
        assert(devices@ =~= Self::parse(cmd@)->Some_0);
        Ok(DevicesList { devices })
    }
}

} // verus!
