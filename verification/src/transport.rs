//! The two halves of the host-link transport.
//!
//! The reader half decodes inbound packets and forwards each decoded
//! message to the inbound queue; one corrupt packet never aborts it. The
//! writer half drains the outbound queue and encodes each message into
//! packet bytes under a running sequence number; delivery is best effort,
//! so the caller races the physical write against a short bound and drops
//! the packet on timeout. A disconnect returns the reader to waiting for
//! a connection without terminating its owning task.

use vstd::prelude::*;

use crate::codec;
use crate::codec::CodecError;
use crate::fabric::queue_contents;
use crate::fabric::BoundedQueue;
use crate::fabric::QUEUE_CAPACITY;
use crate::message::Message;

verus! {

/// Why the physical link failed: the taxonomy the caller's endpoint
/// errors are mapped into before the transport decides what to do.
#[derive(Debug, Copy, Clone, PartialEq, Eq, Structural)]
pub enum UsbError {
    /// The link was disconnected mid-loop.
    Disconnected,
    /// The endpoint is disabled.
    Disabled,
    /// Nothing is waiting in the queue.
    EmptyChannel,
    /// An inbound packet failed to decode.
    DecodeError,
}

/// Whether the physical link currently has a host on the other end.
#[derive(Debug, Copy, Clone, PartialEq, Eq, Structural)]
pub enum LinkState {
    Disconnected,
    Connected,
}

/// What the reader half did with one inbound packet.
pub enum ReaderOutcome {
    /// The packet decoded and its message was forwarded inbound.
    Delivered,
    /// The packet was rejected; the reader logs it and carries on.
    Rejected(CodecError),
    /// The inbound queue is full; the caller retries with the message
    /// handed back once the runtime has drained a slot.
    QueueFull(Message),
}

/// The reader half: decodes packets while connected.
pub struct LinkReader {
    pub state: LinkState,
}

impl LinkReader {
    /// A reader starts disconnected, waiting for a connection.
    pub fn new() -> (r: LinkReader)
        ensures
            r.state == LinkState::Disconnected,
    {
        LinkReader { state: LinkState::Disconnected }
    }

    /// The link came up.
    pub fn on_connection(&mut self)
        ensures
            final(self).state == LinkState::Connected,
    {
        self.state = LinkState::Connected;
    }

    /// The link went down: back to waiting for a connection.
    pub fn on_disconnect(&mut self)
        ensures
            final(self).state == LinkState::Disconnected,
    {
        self.state = LinkState::Disconnected;
    }

    /// Handles one inbound packet: decode it and forward the message to
    /// the inbound queue. A packet that fails to decode is reported and
    /// skipped, never fatal, and the reader stays connected.
    pub fn on_packet(&mut self, bytes: &[u8], inbound: &mut BoundedQueue) -> (r: ReaderOutcome)
        requires
            old(self).state == LinkState::Connected,
        ensures
            final(self).state == LinkState::Connected,
            match codec::decode_spec(bytes@) {
                Err(e) => {
                    &&& r matches ReaderOutcome::Rejected(re) && re == e
                    &&& queue_contents(*final(inbound)) == queue_contents(*old(inbound))
                },
                Ok((sequence, mm)) => {
                    if queue_contents(*old(inbound)).len() < QUEUE_CAPACITY {
                        &&& r is Delivered
                        &&& queue_contents(*final(inbound)) == queue_contents(
                            *old(inbound),
                        ).push(mm)
                    } else {
                        &&& (r matches ReaderOutcome::QueueFull(m) && m@ == mm)
                        &&& queue_contents(*final(inbound)) == queue_contents(*old(inbound))
                    }
                },
            },
    {
        match codec::decode(bytes) {
            Err(e) => ReaderOutcome::Rejected(e),
            Ok((sequence, message)) => match inbound.try_send(message) {
                Ok(()) => ReaderOutcome::Delivered,
                Err(m) => ReaderOutcome::QueueFull(m),
            },
        }
    }
}

/// The next sequence number: one more, wrapping at a byte.
pub open spec fn next_sequence(s: u8) -> u8 {
    if s == 255 {
        0
    } else {
        (s + 1) as u8
    }
}

/// The writer half: encodes outbound messages under a running sequence
/// number.
pub struct LinkWriter {
    pub sequence: u8,
}

impl LinkWriter {
    /// A writer starts at sequence zero.
    pub fn new() -> (r: LinkWriter)
        ensures
            r.sequence == 0,
    {
        LinkWriter { sequence: 0 }
    }

    /// Takes the oldest outbound message and encodes it as packet bytes
    /// for the caller to transmit. An empty queue yields nothing; a
    /// message whose payload exceeds the packet ceiling is dropped here,
    /// at encode time, and the sequence number is not consumed.
    pub fn next_packet(&mut self, outbound: &mut BoundedQueue) -> (r: Option<Vec<u8>>)
        ensures
            queue_contents(*old(outbound)).len() == 0 ==> {
                &&& r is None
                &&& final(self).sequence == old(self).sequence
                &&& queue_contents(*final(outbound)) == queue_contents(*old(outbound))
            },
            queue_contents(*old(outbound)).len() > 0 ==> {
                let m = queue_contents(*old(outbound)).first();
                &&& queue_contents(*final(outbound)) == queue_contents(
                    *old(outbound),
                ).drop_first()
                &&& if codec::representable(m) {
                    &&& (r matches Some(bytes) && bytes@ == codec::encode_spec(
                        old(self).sequence,
                        m,
                    ))
                    &&& final(self).sequence == next_sequence(old(self).sequence)
                } else {
                    &&& r is None
                    &&& final(self).sequence == old(self).sequence
                }
            },
    {
        match outbound.try_receive() {
            None => None,
            Some(message) => match codec::encode(self.sequence, message) {
                Ok(envelope) => {
                    let bytes = envelope.to_bytes();
                    self.sequence = if self.sequence == 255 {
                        0
                    } else {
                        self.sequence + 1
                    };
                    Some(bytes)
                },
                Err(_) => None,
            },
        }
    }
}

} // verus!
