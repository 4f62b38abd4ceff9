//! Typed responses and the parsers that read them out of received frames.
//!
//! All integers in a payload are big-endian. A payload that is too short for
//! its kind is a decode failure; bytes behind the last field are ignored.

use crate::command::{Command, Frame, MessageType};
use crate::error::ZigateError;
use vstd::prelude::*;

pub mod active_endpoints;
pub mod device_announce;
pub mod devices_list;
pub mod read_attribute;
pub mod simple_descriptor;
pub mod status;
pub mod version_list;

pub use active_endpoints::{ActiveEndpoints, ActiveEndpointsView};
pub use device_announce::DeviceAnnounce;
pub use devices_list::{Device, DevicesList};
pub use read_attribute::{AttributeReport, ReadAttributeResponse};
pub use simple_descriptor::{SimpleDescriptorResponse, SimpleDescriptorView};
pub use status::{Status, StatusCode};
pub use version_list::VersionList;

verus! {

/// A kind of response that can be read out of a frame.
pub trait Response: Sized + View {
    /// What a frame of this kind says, or `None` where its payload is too
    /// short for the kind.
    spec fn parse(f: Frame) -> Option<Self::V>;

    /// Reads the response out of a frame; a decode failure exactly where
    /// [`Response::parse`] finds none.
    fn from_command(cmd: &Command) -> (r: Result<Self, ZigateError>)
        ensures
            match Self::parse(cmd@) {
                Some(v) => r is Ok && r->Ok_0@ == v,
                None => r is Err && r->Err_0 == ZigateError::DecodeFailure,
            },
    ;
}

/// A frame of a kind for which there is no parser: kept as it came.
#[derive(Debug)]
pub struct Unknown {
    pub msg_type: u16,
    pub data: Vec<u8>,
}

impl View for Unknown {
    type V = Frame;

    open spec fn view(&self) -> Frame {
        Frame { msg_type: self.msg_type, payload: self.data@ }
    }
}

impl Response for Unknown {
    open spec fn parse(f: Frame) -> Option<Frame> {
        Some(f)
    }

    fn from_command(cmd: &Command) -> (r: Result<Unknown, ZigateError>) {
        let copy = cmd.clone();
        Ok(Unknown { msg_type: copy.msg_type, data: copy.data })
    }
}

/// A parsed response of any kind.
#[derive(Debug)]
pub enum ResponseBox {
    StatusBox(Status),
    VersionListBox(VersionList),
    DeviceAnnounceBox(DeviceAnnounce),
    DevicesListBox(DevicesList),
    ActiveEndpointsBox(ActiveEndpoints),
    SimpleDescriptorResponseBox(SimpleDescriptorResponse),
    ReadAttributeResponseBox(ReadAttributeResponse),
    ReportIndividualAttributeResponseBox(ReadAttributeResponse),
    UnknownBox(Unknown),
}

/// A parsed response of any kind, as a mathematical value.
pub enum ResponseView {
    Status(Status),
    VersionList(VersionList),
    DeviceAnnounce(DeviceAnnounce),
    DevicesList(Seq<Device>),
    ActiveEndpoints(ActiveEndpointsView),
    SimpleDescriptor(SimpleDescriptorView),
    ReadAttribute(AttributeReport),
    ReportAttribute(AttributeReport),
    Unknown(Frame),
}

impl View for ResponseBox {
    type V = ResponseView;

    open spec fn view(&self) -> ResponseView {
        match self {
            ResponseBox::StatusBox(r) => ResponseView::Status(r@),
            ResponseBox::VersionListBox(r) => ResponseView::VersionList(r@),
            ResponseBox::DeviceAnnounceBox(r) => ResponseView::DeviceAnnounce(r@),
            ResponseBox::DevicesListBox(r) => ResponseView::DevicesList(r@),
            ResponseBox::ActiveEndpointsBox(r) => ResponseView::ActiveEndpoints(r@),
            ResponseBox::SimpleDescriptorResponseBox(r) => ResponseView::SimpleDescriptor(r@),
            ResponseBox::ReadAttributeResponseBox(r) => ResponseView::ReadAttribute(r@),
            ResponseBox::ReportIndividualAttributeResponseBox(r) => ResponseView::ReportAttribute(r@),
            ResponseBox::UnknownBox(r) => ResponseView::Unknown(r@),
        }
    }
}

/// What a frame says when it is read as the kind that its message type
/// names; `None` where the payload is too short for that kind. Frames of a
/// kind without a parser are kept whole.
pub open spec fn parse_frame(f: Frame) -> Option<ResponseView> {
    match MessageType::spec_from_u16(f.msg_type) {
        MessageType::Status => match Status::parse(f) {
            Some(v) => Some(ResponseView::Status(v)),
            None => None,
        },
        MessageType::VersionList => match VersionList::parse(f) {
            Some(v) => Some(ResponseView::VersionList(v)),
            None => None,
        },
        MessageType::DeviceAnnounce => match DeviceAnnounce::parse(f) {
            Some(v) => Some(ResponseView::DeviceAnnounce(v)),
            None => None,
        },
        MessageType::DevicesList => match DevicesList::parse(f) {
            Some(v) => Some(ResponseView::DevicesList(v)),
            None => None,
        },
        MessageType::ActiveEndpoints => match ActiveEndpoints::parse(f) {
            Some(v) => Some(ResponseView::ActiveEndpoints(v)),
            None => None,
        },
        MessageType::SimpleDescriptorResponse => match SimpleDescriptorResponse::parse(f) {
            Some(v) => Some(ResponseView::SimpleDescriptor(v)),
            None => None,
        },
        MessageType::ReadAttributeResponse => match ReadAttributeResponse::parse(f) {
            Some(v) => Some(ResponseView::ReadAttribute(v)),
            None => None,
        },
        MessageType::ReportIndividualAttributeResponse => match ReadAttributeResponse::parse(f) {
            Some(v) => Some(ResponseView::ReportAttribute(v)),
            None => None,
        },
        _ => Some(ResponseView::Unknown(f)),
    }
}

impl ResponseBox {
    /// Parses a frame as the kind that its message type names.
    pub fn from_command(cmd: &Command) -> (r: Result<ResponseBox, ZigateError>)
        ensures
            match parse_frame(cmd@) {
                Some(v) => r is Ok && r->Ok_0@ == v,
                None => r is Err && r->Err_0 == ZigateError::DecodeFailure,
            },
    {
        match MessageType::from_u16(cmd.msg_type) {
            MessageType::Status => Ok(ResponseBox::StatusBox(Status::from_command(cmd)?)),
            MessageType::VersionList => Ok(
                ResponseBox::VersionListBox(VersionList::from_command(cmd)?),
            ),
            MessageType::DeviceAnnounce => Ok(
                ResponseBox::DeviceAnnounceBox(DeviceAnnounce::from_command(cmd)?),
            ),
            MessageType::DevicesList => Ok(
                ResponseBox::DevicesListBox(DevicesList::from_command(cmd)?),
            ),
            MessageType::ActiveEndpoints => Ok(
                ResponseBox::ActiveEndpointsBox(ActiveEndpoints::from_command(cmd)?),
            ),
            MessageType::SimpleDescriptorResponse => Ok(
                ResponseBox::SimpleDescriptorResponseBox(
                    SimpleDescriptorResponse::from_command(cmd)?,
                ),
            ),
            MessageType::ReadAttributeResponse => Ok(
                ResponseBox::ReadAttributeResponseBox(ReadAttributeResponse::from_command(cmd)?),
            ),
            MessageType::ReportIndividualAttributeResponse => Ok(
                ResponseBox::ReportIndividualAttributeResponseBox(
                    ReadAttributeResponse::from_command(cmd)?,
                ),
            ),
            _ => Ok(ResponseBox::UnknownBox(Unknown::from_command(cmd)?)),
        }
    }
}

/// Parses a frame as the kind that its message type names.
pub fn parse_response(cmd: &Command) -> (r: Result<ResponseBox, ZigateError>)
    ensures
        match parse_frame(cmd@) {
            Some(v) => r is Ok && r->Ok_0@ == v,
            None => r is Err && r->Err_0 == ZigateError::DecodeFailure,
        },
{
    ResponseBox::from_command(cmd)
}

} // verus!
