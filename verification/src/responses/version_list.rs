//! The firmware version that the module reports.

use crate::command::{Command, Frame};
use crate::error::ZigateError;
use crate::responses::Response;
use crate::wire::{be16, reader, take_u16};
use vstd::prelude::*;

verus! {

/// Payload: major version, then installer version, 16 bits each.
#[derive(Clone, Copy, Debug, PartialEq, Eq, Structural)]
pub struct VersionList {
    pub major: u16,
    pub installer: u16,
}

impl View for VersionList {
    type V = VersionList;

    open spec fn view(&self) -> VersionList {
        *self
    }
}

impl Response for VersionList {
    open spec fn parse(f: Frame) -> Option<VersionList> {
        let p = f.payload;
        if p.len() < 4 {
            None
        } else {
            Some(VersionList { major: be16(p[0], p[1]), installer: be16(p[2], p[3]) })
        }
    }

    fn from_command(cmd: &Command) -> (r: Result<VersionList, ZigateError>) {
        let mut buf = reader(&cmd.data);
        let major = take_u16(&mut buf)?;
        let installer = take_u16(&mut buf)?;
        Ok(VersionList { major, installer })
    }
}

} // verus!
