//! The acknowledgement that the module sends for a command.

use crate::command::{Command, Frame};
use crate::error::ZigateError;
use crate::responses::Response;
use crate::wire::{be16, reader, take_u16, take_u8};
use vstd::prelude::*;

verus! {

/// Payload: status, sequence number, then the 16-bit type of the command
/// that is acknowledged.
#[derive(Clone, Copy, Debug, PartialEq, Eq, Structural)]
pub struct Status {
    pub status: u8,
    pub seq_num: u8,
    pub packet_type: u16,
}

/// What the status byte of an acknowledgement means.
#[derive(Clone, Copy, Debug, PartialEq, Eq, Structural)]
pub enum StatusCode {
    Success,
    IncorrectParameters,
    UnhandledCommand,
    CommandFailed,
    Busy,
    StackAlreadyStarted,
    Failed,
}

impl StatusCode {
    /// The meaning of a status byte: 0 to 5 have one each, anything else is
    /// a plain failure.
    pub open spec fn of(status: u8) -> StatusCode {
        match status {
            0 => StatusCode::Success,
            1 => StatusCode::IncorrectParameters,
            2 => StatusCode::UnhandledCommand,
            3 => StatusCode::CommandFailed,
            4 => StatusCode::Busy,
            5 => StatusCode::StackAlreadyStarted,
            _ => StatusCode::Failed,
        }
    }
}

impl View for Status {
    type V = Status;

    open spec fn view(&self) -> Status {
        *self
    }
}

impl Status {
    /// The meaning of the status byte.
    pub fn code(&self) -> (code: StatusCode)
        ensures
            code == StatusCode::of(self.status),
    {
        match self.status {
            0 => StatusCode::Success,
            1 => StatusCode::IncorrectParameters,
            2 => StatusCode::UnhandledCommand,
            3 => StatusCode::CommandFailed,
            4 => StatusCode::Busy,
            5 => StatusCode::StackAlreadyStarted,
            _ => StatusCode::Failed,
        }
    }
}

impl Response for Status {
    open spec fn parse(f: Frame) -> Option<Status> {
        let p = f.payload;
        if p.len() < 4 {
            None
        } else {
            Some(Status { status: p[0], seq_num: p[1], packet_type: be16(p[2], p[3]) })
        }
    }

    fn from_command(cmd: &Command) -> (r: Result<Status, ZigateError>) {
        let mut buf = reader(&cmd.data);
        let status = take_u8(&mut buf)?;
        let seq_num = take_u8(&mut buf)?;
        let packet_type = take_u16(&mut buf)?;
        Ok(Status { status, seq_num, packet_type })
    }
}

} // verus!
