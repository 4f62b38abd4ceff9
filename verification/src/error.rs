//! The failures that the driver core reports.

use vstd::prelude::*;

verus! {

/// Every way in which an operation of the driver can fail.
#[derive(Clone, Copy, Debug, PartialEq, Eq, Structural)]
pub enum ZigateError {
    /// A raw frame, or its unescaped body, is shorter than the fixed part of a frame.
    ShortFrame,
    /// A raw frame does not start with the start marker or end with the stop marker.
    BadMarker,
    /// The length stated in a frame's header is not the length of its payload.
    LengthMismatch,
    /// The checksum stated in a frame is not the checksum of its header and payload.
    BadChecksum,
    /// A command payload is longer than 255 bytes.
    PayloadOverflow,
    /// A response payload is truncated or otherwise not laid out as its kind requires.
    DecodeFailure,
    /// No response of the awaited kind arrived within the polling budget.
    Timeout,
    /// The requested value belongs to a cluster that the device model does not hold.
    NotAvailable,
    /// The transport failed to read or write.
    TransportError,
}

impl ZigateError {
    /// A short human-readable description of the failure.
    pub fn message(&self) -> (text: &'static str)
        ensures
            text@ == self.message_text(),
    {
        match self {
            ZigateError::ShortFrame => "frame too short",
            ZigateError::BadMarker => "frame markers missing",
            ZigateError::LengthMismatch => "stated length differs from payload length",
            ZigateError::BadChecksum => "checksum mismatch",
            ZigateError::PayloadOverflow => "payload longer than 255 bytes",
            ZigateError::DecodeFailure => "malformed response payload",
            ZigateError::Timeout => "timed out waiting for a response",
            ZigateError::NotAvailable => "value not available on this endpoint",
            ZigateError::TransportError => "serial transport failure",
        }
    }

    /// The text that [`ZigateError::message`] returns.
    pub open spec fn message_text(&self) -> Seq<char> {
        match self {
            ZigateError::ShortFrame => "frame too short"@,
            ZigateError::BadMarker => "frame markers missing"@,
            ZigateError::LengthMismatch => "stated length differs from payload length"@,
            ZigateError::BadChecksum => "checksum mismatch"@,
            ZigateError::PayloadOverflow => "payload longer than 255 bytes"@,
            ZigateError::DecodeFailure => "malformed response payload"@,
            ZigateError::Timeout => "timed out waiting for a response"@,
            ZigateError::NotAvailable => "value not available on this endpoint"@,
            ZigateError::TransportError => "serial transport failure"@,
        }
    }
}

} // verus!
