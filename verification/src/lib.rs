//! Host-side core of a driver for a ZigBee coordinator module reached over a
//! serial link: the wire framing, the message registry and payload layouts,
//! the device and cluster model, and the bookkeeping that turns received
//! frames into device state and answers to client requests.
//!
//! Nothing here performs I/O. A caller owns the transport and the clock; the
//! library is handed bytes and frames and says what to send and what changed.

pub mod error;
pub mod wire;
pub mod command;
pub mod responses;
pub mod cluster;
pub mod device;
pub mod commands;
pub mod serial;
pub mod zigate;
