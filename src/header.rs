//! The fixed 62-byte frame header and its byte layout.
//!
//! | offset | size | field                     |
//! |--------|------|---------------------------|
//! | 0      | 1    | protocol version          |
//! | 1      | 1    | packet type               |
//! | 2      | 16   | sender id                 |
//! | 18     | 8    | timestamp, little-endian  |
//! | 26     | 32   | authentication code       |
//! | 58     | 4    | payload size, little-endian |
use crate::bytes::{append_bytes, clone_into_array, ct_eq};
use crate::error::FormatError;
use crate::little_endian::{
    lemma_u32_from_le_round_trip, lemma_u32_le_round_trip, lemma_u64_from_le_round_trip,
    lemma_u64_le_round_trip, push_u32_le, push_u64_le, read_u32_le, read_u64_le, u32_from_le,
    u32_le, u64_from_le, u64_le,
};
use vstd::prelude::*;

verus! {

/// Length in bytes of a serialized header.
pub const HEADER_LEN: usize = 62;

/// Length in bytes of the authentication code.
pub const CODE_LEN: usize = 32;

/// Length in bytes of the sender id.
pub const SENDER_ID_LEN: usize = 16;

/// The header as a mathematical value.
pub struct HeaderView {
    pub protocol_version: u8,
    pub packet_type: u8,
    pub uuid: Seq<u8>,
    pub timestamp: u64,
    pub hmac: Seq<u8>,
    pub size: u32,
}

impl HeaderView {
    /// The byte fields have their fixed widths.
    pub open spec fn wf(self) -> bool {
        self.uuid.len() == SENDER_ID_LEN && self.hmac.len() == CODE_LEN
    }

    /// The same header with the authentication code replaced.
    pub open spec fn with_hmac(self, hmac: Seq<u8>) -> HeaderView {
        HeaderView { hmac, ..self }
    }
}

/// The serialized form of a header: each field at its fixed offset.
pub open spec fn header_bytes(h: HeaderView) -> Seq<u8> {
    seq![h.protocol_version, h.packet_type] + h.uuid + u64_le(h.timestamp) + h.hmac + u32_le(h.size)
}

/// The header that the first 62 bytes of `b` hold.
pub open spec fn header_from_bytes(b: Seq<u8>) -> HeaderView {
    HeaderView {
        protocol_version: b[0],
        packet_type: b[1],
        uuid: b.subrange(2, 18),
        timestamp: u64_from_le(b.subrange(18, 26)),
        hmac: b.subrange(26, 58),
        size: u32_from_le(b.subrange(58, 62)),
    }
}

/// A serialized header is exactly 62 bytes long.
pub proof fn lemma_header_bytes_len(h: HeaderView)
    requires
        h.wf(),
    ensures
        header_bytes(h).len() == HEADER_LEN,
{
}

/// Parsing a serialized header gives the header back.
pub proof fn lemma_header_round_trip(h: HeaderView)
    requires
        h.wf(),
    ensures
        header_from_bytes(header_bytes(h)) == h,
{
    let b = header_bytes(h);
    lemma_u64_le_round_trip(h.timestamp);
    lemma_u32_le_round_trip(h.size);
    assert(b.subrange(2, 18) =~= h.uuid);
    assert(b.subrange(18, 26) =~= u64_le(h.timestamp));
    assert(b.subrange(26, 58) =~= h.hmac);
    assert(b.subrange(58, 62) =~= u32_le(h.size));
}

/// Serializing a parsed header gives back the 62 bytes it was parsed from.
pub proof fn lemma_header_bytes_of_parsed(b: Seq<u8>)
    requires
        b.len() >= HEADER_LEN,
    ensures
        header_from_bytes(b).wf(),
        header_bytes(header_from_bytes(b)) == b.subrange(0, HEADER_LEN as int),
{
    lemma_u64_from_le_round_trip(b.subrange(18, 26));
    lemma_u32_from_le_round_trip(b.subrange(58, 62));
    assert(header_bytes(header_from_bytes(b)) =~= b.subrange(0, HEADER_LEN as int));
}

/// Only the first 62 bytes of the input decide the parsed header.
pub proof fn lemma_header_from_prefix(b: Seq<u8>, c: Seq<u8>)
    requires
        b.len() >= HEADER_LEN,
        c.len() >= HEADER_LEN,
        b.subrange(0, HEADER_LEN as int) == c.subrange(0, HEADER_LEN as int),
    ensures
        header_from_bytes(b) == header_from_bytes(c),
{
    let p = b.subrange(0, HEADER_LEN as int);
    assert(b[0] == p[0] && b[1] == p[1] && c[0] == p[0] && c[1] == p[1]);
    assert(b.subrange(2, 18) =~= c.subrange(2, 18)) by {
        assert forall|i: int| 0 <= i < 16 implies b.subrange(2, 18)[i] == c.subrange(2, 18)[i] by {
            assert(b[2 + i] == p[2 + i] && c[2 + i] == p[2 + i]);
        }
    }
    assert(b.subrange(18, 26) =~= c.subrange(18, 26)) by {
        assert forall|i: int| 0 <= i < 8 implies b.subrange(18, 26)[i] == c.subrange(18, 26)[i] by {
            assert(b[18 + i] == p[18 + i] && c[18 + i] == p[18 + i]);
        }
    }
    assert(b.subrange(26, 58) =~= c.subrange(26, 58)) by {
        assert forall|i: int| 0 <= i < 32 implies b.subrange(26, 58)[i] == c.subrange(26, 58)[i] by {
            assert(b[26 + i] == p[26 + i] && c[26 + i] == p[26 + i]);
        }
    }
    assert(b.subrange(58, 62) =~= c.subrange(58, 62)) by {
        assert forall|i: int| 0 <= i < 4 implies b.subrange(58, 62)[i] == c.subrange(58, 62)[i] by {
            assert(b[58 + i] == p[58 + i] && c[58 + i] == p[58 + i]);
        }
    }
}

/// The fixed-layout header that precedes every payload.
#[derive(Clone, Copy, Debug)]
pub struct D4Header {
    protocol_version: u8,
    packet_type: u8,
    uuid: [u8; 16],
    timestamp: u64,
    hmac: [u8; 32],
    size: u32,
}

impl View for D4Header {
    type V = HeaderView;

    closed spec fn view(&self) -> HeaderView {
        HeaderView {
            protocol_version: self.protocol_version,
            packet_type: self.packet_type,
            uuid: self.uuid@,
            timestamp: self.timestamp,
            hmac: self.hmac@,
            size: self.size,
        }
    }
}

impl D4Header {
    /// A header with the given fields.
    pub fn new(
        protocol_version: u8,
        packet_type: u8,
        uuid: [u8; 16],
        timestamp: u64,
        hmac: [u8; 32],
        size: u32,
    ) -> (r: D4Header)
        ensures
            r@ == (HeaderView {
                protocol_version,
                packet_type,
                uuid: uuid@,
                timestamp,
                hmac: hmac@,
                size,
            }),
    {
        D4Header { protocol_version, packet_type, uuid, timestamp, hmac, size }
    }

    /// This header with the authentication code replaced by `hmac`.
    pub fn with_hmac(&self, hmac: [u8; 32]) -> (r: D4Header)
        ensures
            r@ == self@.with_hmac(hmac@),
    {
        D4Header { hmac, ..*self }
    }

    pub fn protocol_version(&self) -> (r: u8)
        ensures
            r == self@.protocol_version,
    {
        self.protocol_version
    }

    pub fn packet_type(&self) -> (r: u8)
        ensures
            r == self@.packet_type,
    {
        self.packet_type
    }

    /// The 16-byte id of the sending sensor.
    pub fn uuid(&self) -> (r: [u8; 16])
        ensures
            r@ == self@.uuid,
    {
        self.uuid
    }

    /// Seconds since the Unix epoch at which the frame was made.
    pub fn timestamp(&self) -> (r: u64)
        ensures
            r == self@.timestamp,
    {
        self.timestamp
    }

    /// The authentication code carried by the frame.
    pub fn hmac(&self) -> (r: [u8; 32])
        ensures
            r@ == self@.hmac,
    {
        self.hmac
    }

    /// The declared payload length.
    pub fn size(&self) -> (r: u32)
        ensures
            r == self@.size,
    {
        self.size
    }

    /// The 62 bytes of this header, each field at its fixed offset.
    pub fn serialize(&self) -> (r: Vec<u8>)
        ensures
            r@ == header_bytes(self@),
    {
        let mut out: Vec<u8> = Vec::with_capacity(HEADER_LEN);
        out.push(self.protocol_version);
        out.push(self.packet_type);
        append_bytes(&mut out, self.uuid.as_slice());
        push_u64_le(&mut out, self.timestamp);
        append_bytes(&mut out, self.hmac.as_slice());
        push_u32_le(&mut out, self.size);
        assert(out@ =~= header_bytes(self@));
        out
    }

    /// Reads a header from the first 62 bytes of `data`; later bytes are
    /// not looked at.
    pub fn parse(data: &[u8]) -> (r: Result<D4Header, FormatError>)
        ensures
            data@.len() < HEADER_LEN <==> r == Err::<D4Header, FormatError>(
                FormatError::TruncatedHeader,
            ),
            r matches Ok(h) ==> h@ == header_from_bytes(data@),
            r matches Err(e) ==> e == FormatError::TruncatedHeader,
    {
        if data.len() < HEADER_LEN {
            return Err(FormatError::TruncatedHeader);
        }
        let uuid: [u8; 16] = clone_into_array(&data[2..18]);
        let hmac: [u8; 32] = clone_into_array(&data[26..58]);
        let h = D4Header {
            protocol_version: data[0],
            packet_type: data[1],
            uuid,
            timestamp: read_u64_le(data, 18),
            hmac,
            size: read_u32_le(data, 58),
        };
        Ok(h)
    }
}

impl PartialEq for D4Header {
    fn eq(&self, other: &D4Header) -> bool {
        self.protocol_version == other.protocol_version && self.packet_type == other.packet_type
            && ct_eq(self.uuid.as_slice(), other.uuid.as_slice()) && self.timestamp
            == other.timestamp && ct_eq(self.hmac.as_slice(), other.hmac.as_slice()) && self.size
            == other.size
    }
}

impl vstd::std_specs::cmp::PartialEqSpecImpl for D4Header {
    open spec fn obeys_eq_spec() -> bool {
        true
    }

    open spec fn eq_spec(&self, other: &D4Header) -> bool {
        self@ == other@
    }
}

} // verus!
