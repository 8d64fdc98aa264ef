use vstd::prelude::*;

use crate::payload::{type_from_value, type_value, PayloadType};
use crate::version::{inverse_version_value, version_from_value, version_value, ProtocolVersion};

verus! {

/// A payload handed to the transport: the discriminant the admission policy
/// inspects, and the body bytes, which this transport never interprets.
#[derive(Debug, PartialEq, Eq)]
pub struct Payload {
    /// The payload-type discriminant of this payload.
    pub payload_type: PayloadType,
    /// The encoded payload body.
    pub data: Vec<u8>,
}

/// The fixed eight-byte header that precedes every payload body on the wire:
/// version, inverse version, 16-bit payload type and 32-bit payload length.
#[derive(Clone, Copy, Debug, PartialEq, Eq, Structural)]
pub struct DoipHeader {
    /// The protocol version stamped on the message.
    pub protocol_version: ProtocolVersion,
    /// The bitwise inverse of the version byte, a consistency check.
    pub inverse_protocol_version: u8,
    /// The payload-type discriminant of the body that follows.
    pub payload_type: PayloadType,
    /// The length in bytes of the body that follows.
    pub payload_length: u32,
}

/// A framed protocol message: a header and the payload body it describes.
#[derive(Debug, PartialEq, Eq)]
pub struct DoipMessage {
    /// The message header.
    pub header: DoipHeader,
    /// The payload body; its length equals the header's length field.
    pub payload: Vec<u8>,
}

/// Failure to frame a message for the wire.
#[derive(Clone, Copy, Debug, PartialEq, Eq, Structural)]
pub enum EncodeError {
    /// The payload body is longer than the 32-bit length field can carry.
    PayloadTooLarge,
}

/// Failure to read a message back off a byte buffer.
#[derive(Clone, Copy, Debug, PartialEq, Eq, Structural)]
pub enum ParseError {
    /// The buffer holds no bytes at all.
    EmptyInput,
    /// The version byte denotes no known protocol version.
    InvalidProtocolVersion,
    /// The inverse version byte is not the complement of the version byte.
    FailedProtocolCheck,
    /// The buffer ends inside the eight-byte header.
    IndexFailure,
    /// The 16-bit payload type denotes no known payload type.
    InvalidPayloadType,
    /// The buffer ends before the length field's worth of body bytes.
    IncompletePayload,
}

/// The two big-endian bytes of a 16-bit value.
pub open spec fn u16_be(x: u16) -> Seq<u8> {
    seq![(x >> 8) as u8, x as u8]
}

/// The 16-bit value two big-endian bytes carry.
pub open spec fn u16_from_be(b0: u8, b1: u8) -> u16 {
    ((b0 as u16) << 8) | (b1 as u16)
}

/// The four big-endian bytes of a 32-bit value.
pub open spec fn u32_be(x: u32) -> Seq<u8> {
    seq![(x >> 24) as u8, (x >> 16) as u8, (x >> 8) as u8, x as u8]
}

/// The 32-bit value four big-endian bytes carry.
pub open spec fn u32_from_be(b0: u8, b1: u8, b2: u8, b3: u8) -> u32 {
    ((b0 as u32) << 24) | ((b1 as u32) << 16) | ((b2 as u32) << 8) | (b3 as u32)
}

pub proof fn lemma_u16_be_round_trip(x: u16)
    ensures
        u16_from_be(u16_be(x)[0], u16_be(x)[1]) == x,
{
    let b0 = (x >> 8) as u8;
    let b1 = x as u8;
    assert(((b0 as u16) << 8) | (b1 as u16) == x) by (bit_vector)
        requires
            b0 == (x >> 8) as u8,
            b1 == x as u8,
    ;
}

pub proof fn lemma_u16_be_inverse(b0: u8, b1: u8)
    ensures
        u16_be(u16_from_be(b0, b1)) == seq![b0, b1],
{
    let x = u16_from_be(b0, b1);
    assert((x >> 8) as u8 == b0 && x as u8 == b1) by (bit_vector)
        requires
            x == ((b0 as u16) << 8) | (b1 as u16),
    ;
    assert(u16_be(x) =~= seq![b0, b1]);
}

pub proof fn lemma_u32_be_round_trip(x: u32)
    ensures
        u32_from_be(u32_be(x)[0], u32_be(x)[1], u32_be(x)[2], u32_be(x)[3]) == x,
{
    let b0 = (x >> 24) as u8;
    let b1 = (x >> 16) as u8;
    let b2 = (x >> 8) as u8;
    let b3 = x as u8;
    assert(((b0 as u32) << 24) | ((b1 as u32) << 16) | ((b2 as u32) << 8) | (b3 as u32) == x)
        by (bit_vector)
        requires
            b0 == (x >> 24) as u8,
            b1 == (x >> 16) as u8,
            b2 == (x >> 8) as u8,
            b3 == x as u8,
    ;
}

pub proof fn lemma_u32_be_inverse(b0: u8, b1: u8, b2: u8, b3: u8)
    ensures
        u32_be(u32_from_be(b0, b1, b2, b3)) == seq![b0, b1, b2, b3],
{
    let x = u32_from_be(b0, b1, b2, b3);
    assert((x >> 24) as u8 == b0 && (x >> 16) as u8 == b1 && (x >> 8) as u8 == b2 && x as u8 == b3)
        by (bit_vector)
        requires
            x == ((b0 as u32) << 24) | ((b1 as u32) << 16) | ((b2 as u32) << 8) | (b3 as u32),
    ;
    assert(u32_be(x) =~= seq![b0, b1, b2, b3]);
}

/// The header that framing a body of a given length under a given version and
/// payload type produces.
pub open spec fn spec_header(v: ProtocolVersion, t: PayloadType, len: u32) -> DoipHeader {
    DoipHeader {
        protocol_version: v,
        inverse_protocol_version: inverse_version_value(v),
        payload_type: t,
        payload_length: len,
    }
}

/// The full wire frame that framing a body under a given version and payload
/// type produces: the eight header bytes followed by the body.
pub open spec fn frame_bytes(v: ProtocolVersion, t: PayloadType, data: Seq<u8>) -> Seq<u8>
    recommends
        data.len() <= u32::MAX,
{
    header_bytes(spec_header(v, t, data.len() as u32)) + data
}

/// The eight wire bytes of a header.
pub open spec fn header_bytes(h: DoipHeader) -> Seq<u8> {
    seq![version_value(h.protocol_version), h.inverse_protocol_version] + u16_be(
        type_value(h.payload_type),
    ) + u32_be(h.payload_length)
}

/// The full wire frame of a message: its header followed by its body.
pub open spec fn message_bytes(m: DoipMessage) -> Seq<u8> {
    header_bytes(m.header) + m.payload@
}

/// What parsing a byte buffer yields: a header with the body bytes it frames,
/// or the first error the buffer exhibits, checked in wire order.
pub open spec fn spec_parse_message(b: Seq<u8>) -> Result<(DoipHeader, Seq<u8>), ParseError> {
    if b.len() == 0 {
        Err(ParseError::EmptyInput)
    } else if version_from_value(b[0]) is None {
        Err(ParseError::InvalidProtocolVersion)
    } else if b.len() < 2 {
        Err(ParseError::IndexFailure)
    } else if b[1] != (255 - b[0]) as u8 {
        Err(ParseError::FailedProtocolCheck)
    } else if b.len() < 4 {
        Err(ParseError::IndexFailure)
    } else if type_from_value(u16_from_be(b[2], b[3])) is None {
        Err(ParseError::InvalidPayloadType)
    } else if b.len() < 8 {
        Err(ParseError::IndexFailure)
    } else if b.len() < 8 + u32_from_be(b[4], b[5], b[6], b[7]) {
        Err(ParseError::IncompletePayload)
    } else {
        let len = u32_from_be(b[4], b[5], b[6], b[7]);
        Ok(
            (
                DoipHeader {
                    protocol_version: version_from_value(b[0]).unwrap(),
                    inverse_protocol_version: b[1],
                    payload_type: type_from_value(u16_from_be(b[2], b[3])).unwrap(),
                    payload_length: len,
                },
                b.subrange(8, 8 + len as int),
            ),
        )
    }
}

impl DoipHeader {
    /// Whether the header is internally consistent: the inverse version byte
    /// complements the version byte.
    pub open spec fn wf(self) -> bool {
        self.inverse_protocol_version == inverse_version_value(self.protocol_version)
    }
}

impl DoipMessage {
    /// Whether the message is internally consistent: a consistent header whose
    /// length field equals the body's length.
    pub open spec fn wf(self) -> bool {
        &&& self.header.wf()
        &&& self.payload@.len() == self.header.payload_length
    }

    /// Constructs a message by stamping a protocol version on a payload; the
    /// header's length field is the body's true length. Fails exactly when the
    /// body is longer than the 32-bit length field can carry.
    pub fn new(protocol_version: ProtocolVersion, payload: Payload) -> (r: Result<
        DoipMessage,
        EncodeError,
    >)
        ensures
            payload.data@.len() > u32::MAX ==> r == Err::<DoipMessage, EncodeError>(
                EncodeError::PayloadTooLarge,
            ),
            payload.data@.len() <= u32::MAX ==> {
                &&& r matches Ok(m)
                &&& m.header.protocol_version == protocol_version
                &&& m.header.inverse_protocol_version == inverse_version_value(protocol_version)
                &&& m.header.payload_type == payload.payload_type
                &&& m.header.payload_length == payload.data@.len()
                &&& m.payload == payload.data
                &&& m.wf()
            },
    {
        if payload.data.len() as u64 > u32::MAX as u64 {
            return Err(EncodeError::PayloadTooLarge);
        }
        let header = DoipHeader {
            protocol_version,
            inverse_protocol_version: 255 - protocol_version.value(),
            payload_type: payload.payload_type,
            payload_length: payload.data.len() as u32,
        };
        Ok(DoipMessage { header, payload: payload.data })
    }

    /// The wire bytes of this message: the eight header bytes followed by the
    /// payload body.
    pub fn to_bytes(&self) -> (r: Vec<u8>)
        ensures
            r@ == message_bytes(*self),
            r@.len() == 8 + self.payload@.len(),
    {
        let mut bytes: Vec<u8> = Vec::new();
        bytes.push(self.header.protocol_version.value());
        bytes.push(self.header.inverse_protocol_version);
        let t: u16 = self.header.payload_type.value();
        bytes.push((t >> 8) as u8);
        bytes.push(t as u8);
        let n: u32 = self.header.payload_length;
        bytes.push((n >> 24) as u8);
        bytes.push((n >> 16) as u8);
        bytes.push((n >> 8) as u8);
        bytes.push(n as u8);
        assert(bytes@ =~= header_bytes(self.header));
        let mut i: usize = 0;
        while i < self.payload.len()
            invariant
                i <= self.payload@.len(),
                bytes@ == header_bytes(self.header) + self.payload@.subrange(0, i as int),
            decreases self.payload@.len() - i,
        {
            bytes.push(self.payload[i]);
            assert(self.payload@.subrange(0, i + 1 as int) =~= self.payload@.subrange(
                0,
                i as int,
            ).push(self.payload@[i as int]));
            i += 1;
        }
        assert(bytes@ =~= message_bytes(*self));
        bytes
    }

    /// Parses the message framed at the head of a byte buffer. Yields the
    /// message, or the first defect of the buffer in wire order: no bytes, an
    /// unknown version byte, an inverse byte that fails the complement check,
    /// a truncated header, an unknown payload type, or fewer body bytes than
    /// the length field announces. Bytes past the announced body are ignored.
    pub fn parse(bytes: &Vec<u8>) -> (r: Result<DoipMessage, ParseError>)
        ensures
            (match spec_parse_message(bytes@) {
                Ok(p) => {
                    &&& r matches Ok(m)
                    &&& m.header == p.0
                    &&& m.payload@ == p.1
                },
                Err(e) => r == Err::<DoipMessage, ParseError>(e),
            }),
    {
        if bytes.len() == 0 {
            return Err(ParseError::EmptyInput);
        }
        let protocol_version = match ProtocolVersion::from_value(bytes[0]) {
            Some(v) => v,
            None => {
                return Err(ParseError::InvalidProtocolVersion);
            },
        };
        if bytes.len() < 2 {
            return Err(ParseError::IndexFailure);
        }
        let inverse_protocol_version = bytes[1];
        if inverse_protocol_version != 255 - bytes[0] {
            return Err(ParseError::FailedProtocolCheck);
        }
        if bytes.len() < 4 {
            return Err(ParseError::IndexFailure);
        }
        let type_raw: u16 = ((bytes[2] as u16) << 8) | (bytes[3] as u16);
        let payload_type = match PayloadType::from_value(type_raw) {
            Some(t) => t,
            None => {
                return Err(ParseError::InvalidPayloadType);
            },
        };
        if bytes.len() < 8 {
            return Err(ParseError::IndexFailure);
        }
        let payload_length: u32 = ((bytes[4] as u32) << 24) | ((bytes[5] as u32) << 16) | ((
        bytes[6] as u32) << 8) | (bytes[7] as u32);
        let total: usize = bytes.len();
        if (total as u64) - 8 < payload_length as u64 {
            return Err(ParseError::IncompletePayload);
        }
        let n: usize = payload_length as usize;
        assert(n == payload_length);
        let mut payload: Vec<u8> = Vec::new();
        let mut i: usize = 0;
        while i < n
            invariant
                i <= n,
                n == payload_length,
                8 + n <= total,
                total == bytes@.len(),
                payload@ == bytes@.subrange(8, 8 + i as int),
            decreases n - i,
        {
            payload.push(bytes[8 + i]);
            assert(bytes@.subrange(8, 8 + (i + 1) as int) =~= bytes@.subrange(8, 8 + i as int).push(
                bytes@[8 + i as int],
            ));
            i += 1;
        }
        let header = DoipHeader { protocol_version, inverse_protocol_version, payload_type, payload_length };
        Ok(DoipMessage { header, payload })
    }
}

/// Parsing a consistent header's wire bytes followed by the body it announces
/// gives back exactly that header and that body.
pub proof fn lemma_header_round_trip(h: DoipHeader, data: Seq<u8>)
    requires
        h.wf(),
        h.payload_length == data.len(),
    ensures
        spec_parse_message(header_bytes(h) + data) == Ok::<(DoipHeader, Seq<u8>), ParseError>(
            (h, data),
        ),
{
    let b = header_bytes(h) + data;
    crate::version::lemma_version_value_round_trip(h.protocol_version);
    lemma_u16_be_round_trip(type_value(h.payload_type));
    crate::payload::lemma_type_value_round_trip(h.payload_type);
    lemma_u32_be_round_trip(h.payload_length);
    assert(b[0] == version_value(h.protocol_version));
    assert(b[1] == h.inverse_protocol_version);
    assert(b[2] == u16_be(type_value(h.payload_type))[0]);
    assert(b[3] == u16_be(type_value(h.payload_type))[1]);
    assert(b[4] == u32_be(h.payload_length)[0]);
    assert(b[5] == u32_be(h.payload_length)[1]);
    assert(b[6] == u32_be(h.payload_length)[2]);
    assert(b[7] == u32_be(h.payload_length)[3]);
    assert(b.subrange(8, 8 + h.payload_length as int) =~= data);
}

/// Parsing the wire bytes of a consistent message gives back exactly its
/// header and its payload body: the frame grammar round-trips.
pub proof fn lemma_message_round_trip(m: DoipMessage)
    requires
        m.wf(),
    ensures
        spec_parse_message(message_bytes(m)) == Ok::<(DoipHeader, Seq<u8>), ParseError>(
            (m.header, m.payload@),
        ),
{
    lemma_header_round_trip(m.header, m.payload@);
}

/// Framing any body whose length the length field can carry, then parsing,
/// reproduces the version, the payload-type discriminant and the body bytes
/// unchanged, whatever the payload type.
pub proof fn lemma_frame_round_trip(v: ProtocolVersion, t: PayloadType, data: Seq<u8>)
    requires
        data.len() <= u32::MAX,
    ensures
        spec_parse_message(frame_bytes(v, t, data)) == Ok::<(DoipHeader, Seq<u8>), ParseError>(
            (spec_header(v, t, data.len() as u32), data),
        ),
{
    lemma_header_round_trip(spec_header(v, t, data.len() as u32), data);
}

/// A buffer that parses successfully starts with exactly the wire bytes of
/// the parsed message: re-encoding reproduces the consumed prefix, and the
/// parsed message is consistent.
pub proof fn lemma_parse_inverse(b: Seq<u8>)
    ensures
        spec_parse_message(b) matches Ok(p) ==> {
            &&& p.1.len() == p.0.payload_length
            &&& 8 + p.1.len() <= b.len()
            &&& header_bytes(p.0) + p.1 == b.subrange(0, 8 + p.1.len() as int)
            &&& p.0.wf()
        },
{
    if spec_parse_message(b) is Ok {
        let p = spec_parse_message(b).unwrap();
        crate::version::lemma_version_from_value_inverse(b[0]);
        crate::payload::lemma_type_from_value_inverse(u16_from_be(b[2], b[3]));
        lemma_u16_be_inverse(b[2], b[3]);
        lemma_u32_be_inverse(b[4], b[5], b[6], b[7]);
        assert(header_bytes(p.0) + p.1 =~= b.subrange(0, 8 + p.1.len() as int));
    }
}

} // verus!
