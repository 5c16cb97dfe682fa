//! Pure encoding and decoding between a [`Message`] and its wire envelope.
//!
//! A packet on the host link is `[sequence:1][message_id:1][payload...]`,
//! at most [`crate::MAX_PACKET_SIZE`] bytes in all. Encoding rejects an
//! oversized payload instead of truncating it; decoding rejects an unknown
//! message id instead of misreading the remaining bytes. Encode and decode
//! are mutual inverses for every representable message.

use vstd::prelude::*;

use crate::message::Message;
use crate::message::MessageModel;
use crate::MAX_PACKET_SIZE;
use crate::MAX_PAYLOAD_SIZE;

verus! {

/// Wire id of a zero-payload liveness ping.
pub const PING_ID: u8 = 0;

/// Wire id of the pong reply; the payload is its status bytes.
pub const PONG_ID: u8 = 1;

/// Wire id of a thermocouple reading; the payload is the fixed-point
/// value in four big-endian bytes.
pub const THERMOCOUPLE_ID: u8 = 2;

/// Wire id of an analog converter reading; same payload layout as a
/// thermocouple reading.
pub const ADS_ID: u8 = 3;

/// Wire id of a brew-switch state change; the payload is one byte,
/// zero for off and one for on.
pub const BREW_SWITCH_ID: u8 = 4;

/// Why a packet or a message was rejected.
#[derive(Debug, Clone, Copy, PartialEq, Eq, Structural)]
pub enum CodecError {
    /// The packet is shorter than a header, longer than a packet may be,
    /// or its payload does not fit its message id.
    MalformedHeader,
    /// The message id byte matches no known message.
    UnknownMessageId,
    /// The message's payload would exceed the packet ceiling.
    OversizedPayload,
}

/// One wire unit: header fields plus payload bytes. The payload length is
/// always recoverable, since everything after the header is payload.
pub struct Envelope {
    pub sequence: u8,
    pub message_id: u8,
    pub payload: Vec<u8>,
}

impl Envelope {
    /// A payload that fits a packet after the two header bytes.
    pub open spec fn well_formed(&self) -> bool {
        self.payload@.len() <= MAX_PAYLOAD_SIZE
    }

    /// The packet bytes of this envelope.
    pub open spec fn bytes(&self) -> Seq<u8> {
        seq![self.sequence, self.message_id] + self.payload@
    }

    /// Serializes the envelope as one packet.
    pub fn to_bytes(&self) -> (r: Vec<u8>)
        ensures
            r@ == self.bytes(),
    {
        let mut out: Vec<u8> = Vec::new();
        out.push(self.sequence);
        out.push(self.message_id);
        let mut i: usize = 0;
        while i < self.payload.len()
            invariant
                i <= self.payload@.len(),
                out@ == seq![self.sequence, self.message_id] + self.payload@.take(i as int),
            decreases self.payload@.len() - i,
        {
            out.push(self.payload[i]);
            i = i + 1;
            proof {
                assert(self.payload@.take(i as int)
                    == self.payload@.take(i - 1).push(self.payload@[i - 1]));
            }
        }
        proof {
            assert(self.payload@.take(self.payload@.len() as int) == self.payload@);
        }
        out
    }
}

/// The four big-endian bytes of a fixed-point value.
pub open spec fn value_bytes(value: i32) -> Seq<u8> {
    seq![
        ((value as u32) >> 24) as u8,
        ((value as u32) >> 16) as u8,
        ((value as u32) >> 8) as u8,
        (value as u32) as u8,
    ]
}

/// The fixed-point value read back from four big-endian bytes.
pub open spec fn value_of_bytes(b0: u8, b1: u8, b2: u8, b3: u8) -> i32 {
    (((b0 as u32) << 24) | ((b1 as u32) << 16) | ((b2 as u32) << 8) | (b3 as u32)) as i32
}

/// The wire message id of a message.
pub open spec fn message_id_of(m: MessageModel) -> u8 {
    match m {
        MessageModel::Ping => PING_ID,
        MessageModel::Pong { value } => PONG_ID,
        MessageModel::ThermocoupleReading { value } => THERMOCOUPLE_ID,
        MessageModel::AdsReading { value } => ADS_ID,
        MessageModel::BrewSwitch { is_on } => BREW_SWITCH_ID,
    }
}

/// The payload bytes of a message.
pub open spec fn payload_of(m: MessageModel) -> Seq<u8> {
    match m {
        MessageModel::Ping => Seq::<u8>::empty(),
        MessageModel::Pong { value } => value,
        MessageModel::ThermocoupleReading { value } => value_bytes(value),
        MessageModel::AdsReading { value } => value_bytes(value),
        MessageModel::BrewSwitch { is_on } => seq![if is_on { 1u8 } else { 0u8 }],
    }
}

/// Whether a message fits a packet. Only a pong's status payload can grow
/// beyond the ceiling; every other payload is at most four bytes.
pub open spec fn representable(m: MessageModel) -> bool {
    payload_of(m).len() <= MAX_PAYLOAD_SIZE
}

/// The packet bytes that encoding a representable message produces.
pub open spec fn encode_spec(sequence: u8, m: MessageModel) -> Seq<u8>
    recommends
        representable(m),
{
    seq![sequence, message_id_of(m)] + payload_of(m)
}

/// The message a payload decodes to under a given message id, or the
/// error that rejects it.
pub open spec fn decode_payload_spec(id: u8, payload: Seq<u8>) -> Result<
    MessageModel,
    CodecError,
> {
    if id == PING_ID {
        if payload.len() == 0 {
            Ok(MessageModel::Ping)
        } else {
            Err(CodecError::MalformedHeader)
        }
    } else if id == PONG_ID {
        Ok(MessageModel::Pong { value: payload })
    } else if id == THERMOCOUPLE_ID {
        if payload.len() == 4 {
            Ok(
                MessageModel::ThermocoupleReading {
                    value: value_of_bytes(payload[0], payload[1], payload[2], payload[3]),
                },
            )
        } else {
            Err(CodecError::MalformedHeader)
        }
    } else if id == ADS_ID {
        if payload.len() == 4 {
            Ok(
                MessageModel::AdsReading {
                    value: value_of_bytes(payload[0], payload[1], payload[2], payload[3]),
                },
            )
        } else {
            Err(CodecError::MalformedHeader)
        }
    } else if id == BREW_SWITCH_ID {
        if payload.len() == 1 && (payload[0] == 0 || payload[0] == 1) {
            Ok(MessageModel::BrewSwitch { is_on: payload[0] == 1 })
        } else {
            Err(CodecError::MalformedHeader)
        }
    } else {
        Err(CodecError::UnknownMessageId)
    }
}

/// What a packet decodes to: its sequence byte and its message, or the
/// error that rejects it.
pub open spec fn decode_spec(bytes: Seq<u8>) -> Result<(u8, MessageModel), CodecError> {
    if bytes.len() < 2 || bytes.len() > MAX_PACKET_SIZE {
        Err(CodecError::MalformedHeader)
    } else {
        match decode_payload_spec(bytes[1], bytes.skip(2)) {
            Ok(m) => Ok((bytes[0], m)),
            Err(e) => Err(e),
        }
    }
}

/// Reading four big-endian bytes back yields the value they were made of.
proof fn lemma_value_bytes_round_trip(value: i32)
    ensures
        value_of_bytes(
            ((value as u32) >> 24) as u8,
            ((value as u32) >> 16) as u8,
            ((value as u32) >> 8) as u8,
            (value as u32) as u8,
        ) == value,
{
    assert(((((((value as u32) >> 24) as u8) as u32) << 24) | (((((value as u32) >> 16) as u8)
        as u32) << 16) | (((((value as u32) >> 8) as u8) as u32) << 8) | (((value as u32) as u8)
        as u32)) as i32 == value) by (bit_vector);
}

/// Decoding inverts encoding: every representable message comes back
/// unchanged, under its original sequence number.
pub proof fn lemma_round_trip(sequence: u8, m: MessageModel)
    requires
        representable(m),
    ensures
        decode_spec(encode_spec(sequence, m)) == Ok::<(u8, MessageModel), CodecError>(
            (sequence, m),
        ),
{
    let bytes = encode_spec(sequence, m);
    assert(bytes.skip(2) =~= payload_of(m));
    match m {
        MessageModel::Ping => {},
        MessageModel::Pong { value } => {},
        MessageModel::ThermocoupleReading { value } => {
            lemma_value_bytes_round_trip(value);
        },
        MessageModel::AdsReading { value } => {
            lemma_value_bytes_round_trip(value);
        },
        MessageModel::BrewSwitch { is_on } => {},
    }
}

/// Serializes a fixed-point value as four big-endian bytes.
fn push_value_bytes(out: &mut Vec<u8>, value: i32)
    ensures
        final(out)@ == old(out)@ + value_bytes(value),
{
    let u = value as u32;
    out.push(#[verifier::truncate] ((u >> 24) as u8));
    out.push(#[verifier::truncate] ((u >> 16) as u8));
    out.push(#[verifier::truncate] ((u >> 8) as u8));
    out.push(#[verifier::truncate] (u as u8));
    proof {
        assert(out@ =~= old(out)@ + value_bytes(value));
    }
}

/// Encodes a message under a sequence number: header first, then the
/// serialized payload. An oversized payload is rejected here, at encode
/// time, never truncated.
pub fn encode(sequence: u8, m: Message) -> (r: Result<Envelope, CodecError>)
    ensures
        representable(m@) ==> (r matches Ok(e) && e.sequence == sequence && e.message_id
            == message_id_of(m@) && e.payload@ == payload_of(m@) && e.well_formed()),
        !representable(m@) ==> r == Err::<Envelope, CodecError>(CodecError::OversizedPayload),
{
    match m {
        Message::Ping => Ok(
            Envelope { sequence, message_id: PING_ID, payload: Vec::new() },
        ),
        Message::Pong { value } => {
            if value.len() > MAX_PAYLOAD_SIZE {
                Err(CodecError::OversizedPayload)
            } else {
                Ok(Envelope { sequence, message_id: PONG_ID, payload: value })
            }
        },
        Message::ThermocoupleReading { value } => {
            let mut payload: Vec<u8> = Vec::new();
            push_value_bytes(&mut payload, value);
            Ok(Envelope { sequence, message_id: THERMOCOUPLE_ID, payload })
        },
        Message::AdsReading { value } => {
            let mut payload: Vec<u8> = Vec::new();
            push_value_bytes(&mut payload, value);
            Ok(Envelope { sequence, message_id: ADS_ID, payload })
        },
        Message::BrewSwitch { is_on } => {
            let mut payload: Vec<u8> = Vec::new();
            payload.push(if is_on { 1 } else { 0 });
            proof {
                assert(payload@ =~= payload_of(m@));
            }
            Ok(Envelope { sequence, message_id: BREW_SWITCH_ID, payload })
        },
    }
}

/// Reads a fixed-point value from four big-endian bytes.
fn read_value(b0: u8, b1: u8, b2: u8, b3: u8) -> (r: i32)
    ensures
        r == value_of_bytes(b0, b1, b2, b3),
{
    #[verifier::truncate]
    ((((b0 as u32) << 24) | ((b1 as u32) << 16) | ((b2 as u32) << 8) | (b3 as u32)) as i32)
}

/// Decodes one packet: splits the header from the payload and rebuilds
/// the message. A malformed or unrecognized packet yields an explicit
/// error rather than a misread of the remaining bytes.
pub fn decode(bytes: &[u8]) -> (r: Result<(u8, Message), CodecError>)
    ensures
        match decode_spec(bytes@) {
            Ok((s, mm)) => r matches Ok((rs, rm)) && rs == s && rm@ == mm,
            Err(e) => r == Err::<(u8, Message), CodecError>(e),
        },
{
    if bytes.len() < 2 || bytes.len() > MAX_PACKET_SIZE {
        return Err(CodecError::MalformedHeader);
    }
    let sequence = bytes[0];
    let id = bytes[1];
    let payload = vstd::slice::slice_subrange(bytes, 2, bytes.len());
    proof {
        assert(payload@ =~= bytes@.skip(2));
    }
    if id == PING_ID {
        if payload.len() == 0 {
            Ok((sequence, Message::Ping))
        } else {
            Err(CodecError::MalformedHeader)
        }
    } else if id == PONG_ID {
        let value = vstd::slice::slice_to_vec(payload);
        Ok((sequence, Message::Pong { value }))
    } else if id == THERMOCOUPLE_ID {
        if payload.len() == 4 {
            let value = read_value(payload[0], payload[1], payload[2], payload[3]);
            Ok((sequence, Message::ThermocoupleReading { value }))
        } else {
            Err(CodecError::MalformedHeader)
        }
    } else if id == ADS_ID {
        if payload.len() == 4 {
            let value = read_value(payload[0], payload[1], payload[2], payload[3]);
            Ok((sequence, Message::AdsReading { value }))
        } else {
            Err(CodecError::MalformedHeader)
        }
    } else if id == BREW_SWITCH_ID {
        if payload.len() == 1 && (payload[0] == 0 || payload[0] == 1) {
            Ok((sequence, Message::BrewSwitch { is_on: payload[0] == 1 }))
        } else {
            Err(CodecError::MalformedHeader)
        }
    } else {
        Err(CodecError::UnknownMessageId)
    }
}

} // verus!
