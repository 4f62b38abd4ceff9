//! The receiving side of the link: bytes come in one at a time and leave as
//! frames.
//!
//! A start marker begins a new raw frame, whatever was collected before. A
//! stop marker ends the raw frame, which is then decoded. Every other byte is
//! collected.

use crate::command::{parse_wire, wire_bytes, Command, Frame};
use crate::error::ZigateError;
use vstd::prelude::*;

verus! {

/// What to do with a frame whose stated checksum is wrong.
#[derive(Clone, Copy, Debug, PartialEq, Eq, Structural)]
pub enum ChecksumPolicy {
    /// Drop the frame.
    Strict,
    /// Deliver the frame, marked as suspect.
    Warn,
}

/// What a byte that came in led to.
#[derive(Debug)]
pub enum Received {
    /// The byte was collected; no frame is complete.
    Pending,
    /// A frame is complete and its checksum is right.
    Frame(Command),
    /// A frame is complete, but its checksum is wrong.
    Suspect(Command),
    /// A raw frame is complete, but it cannot be decoded, or its checksum is
    /// wrong and such frames are dropped.
    Dropped(ZigateError),
}

/// What a byte that came in led to, as a mathematical value.
pub enum ReceivedView {
    Pending,
    Frame(Frame),
    Suspect(Frame),
    Dropped(ZigateError),
}

impl View for Received {
    type V = ReceivedView;

    open spec fn view(&self) -> ReceivedView {
        match self {
            Received::Pending => ReceivedView::Pending,
            Received::Frame(cmd) => ReceivedView::Frame(cmd@),
            Received::Suspect(cmd) => ReceivedView::Suspect(cmd@),
            Received::Dropped(e) => ReceivedView::Dropped(*e),
        }
    }
}

/// The raw frame collected so far once `byte` has come in behind `collected`.
pub open spec fn extended(collected: Seq<u8>, byte: u8) -> Seq<u8> {
    if byte == 1 {
        seq![1u8]
    } else {
        collected.push(byte)
    }
}

/// What is collected after `byte` has come in: nothing after a stop marker,
/// else the raw frame so far.
pub open spec fn collected_after(collected: Seq<u8>, byte: u8) -> Seq<u8> {
    if byte == 3 {
        Seq::empty()
    } else {
        extended(collected, byte)
    }
}

/// What a complete raw frame leads to: a frame where it decodes and its
/// checksum is right; where only the checksum is wrong, a suspect frame or a
/// drop, as the policy says; a drop where it does not decode.
pub open spec fn delivery(raw: Seq<u8>, policy: ChecksumPolicy) -> ReceivedView {
    match parse_wire(raw, false) {
        Err(e) => ReceivedView::Dropped(e),
        Ok(f) => if parse_wire(raw, true) is Ok {
            ReceivedView::Frame(f)
        } else if policy == ChecksumPolicy::Strict {
            ReceivedView::Dropped(ZigateError::BadChecksum)
        } else {
            ReceivedView::Suspect(f)
        },
    }
}

/// What `byte` leads to when it comes in behind `collected`.
pub open spec fn outcome(collected: Seq<u8>, byte: u8, policy: ChecksumPolicy) -> ReceivedView {
    if byte == 3 {
        delivery(extended(collected, byte), policy)
    } else {
        ReceivedView::Pending
    }
}

/// What is collected after the bytes of `bytes` have come in, one after the
/// other, behind `collected`.
pub open spec fn collected_after_all(collected: Seq<u8>, bytes: Seq<u8>) -> Seq<u8>
    decreases bytes.len(),
{
    if bytes.len() == 0 {
        collected
    } else {
        collected_after(collected_after_all(collected, bytes.drop_last()), bytes.last())
    }
}

/// Collects the bytes of the link into frames.
#[derive(Debug)]
pub struct Receiver {
    /// The raw frame collected so far.
    pub msg: Vec<u8>,
    pub policy: ChecksumPolicy,
}

impl Receiver {
    /// A receiver that has collected nothing.
    pub fn new(policy: ChecksumPolicy) -> (r: Receiver)
        ensures
            r.msg@ == Seq::<u8>::empty(),
            r.policy == policy,
    {
        Receiver { msg: Vec::new(), policy }
    }

    /// Takes in the next byte of the link.
    pub fn push(&mut self, byte: u8) -> (r: Received)
        ensures
            r@ == outcome(old(self).msg@, byte, old(self).policy),
            final(self).msg@ == collected_after(old(self).msg@, byte),
            final(self).policy == old(self).policy,
    {
        if byte == 1 {
            self.msg.clear();
        }
        self.msg.push(byte);
        if byte == 3 {
            let decoded = Command::from_raw_lenient(&self.msg);
            self.msg.clear();
            match decoded {
                Ok(decoded) => {
                    if decoded.checksum_ok() {
                        Received::Frame(decoded.command)
                    } else {
                        match self.policy {
                            ChecksumPolicy::Strict => Received::Dropped(ZigateError::BadChecksum),
                            ChecksumPolicy::Warn => Received::Suspect(decoded.command),
                        }
                    }
                },
                Err(e) => Received::Dropped(e),
            }
        } else {
            Received::Pending
        }
    }
}

/// While the bytes of an encoded frame come in, all but the stop marker are
/// collected behind the start marker.
proof fn lemma_collecting(collected: Seq<u8>, f: Frame, n: int)
    requires
        1 <= n < wire_bytes(f).len(),
    ensures
        collected_after_all(collected, wire_bytes(f).take(n)) == wire_bytes(f).take(n),
    decreases n,
{
    let w = wire_bytes(f);
    crate::command::lemma_escape_has_no_marker(crate::command::frame_body(f));
    assert(w.take(n).drop_last() == w.take(n - 1));
    if n > 1 {
        lemma_collecting(collected, f, n - 1);
    }
}

/// An encoded frame arrives whole. Whatever a receiver has collected, when
/// the bytes of an encoded frame come in one after the other, every byte
/// before the last is collected without a delivery, the last delivers the
/// frame, with its checksum found right, and nothing stays collected.
pub proof fn lemma_frame_arrives(collected: Seq<u8>, f: Frame, policy: ChecksumPolicy)
    requires
        f.payload.len() <= 0xFFFF,
    ensures
        forall|n: int|
            0 <= n < wire_bytes(f).len() - 1 ==> outcome(
                collected_after_all(collected, #[trigger] wire_bytes(f).take(n)),
                wire_bytes(f)[n],
                policy,
            ) == ReceivedView::Pending,
        outcome(
            collected_after_all(collected, wire_bytes(f).drop_last()),
            wire_bytes(f).last(),
            policy,
        ) == ReceivedView::Frame(f),
        collected_after_all(collected, wire_bytes(f)) == Seq::<u8>::empty(),
{
    let w = wire_bytes(f);
    let body = crate::command::frame_body(f);
    crate::command::lemma_escape_has_no_marker(body);
    crate::command::lemma_escape_shape(body);
    crate::command::lemma_frame_roundtrip(f, true);
    crate::command::lemma_frame_roundtrip(f, false);
    assert forall|n: int| 0 <= n < w.len() - 1 implies outcome(
        collected_after_all(collected, #[trigger] w.take(n)),
        w[n],
        policy,
    ) == ReceivedView::Pending by {}
    lemma_collecting(collected, f, w.len() - 1);
    assert(w.drop_last().push(3u8) == w);
}

} // verus!
