//! Whole frames: a header followed by its payload, signed with HMAC-SHA-256.
use crate::bytes::{append_bytes, ct_eq};
use crate::clock::unix_seconds;
use crate::error::{ClockError, FormatError};
use crate::header::{D4Header, HeaderView, header_bytes, header_from_bytes, CODE_LEN, HEADER_LEN};
use crate::mac::{hmac_sha256, hmac_sha256_code};
use vstd::prelude::*;

verus! {

/// A frame as a mathematical value.
pub struct MessageView {
    pub header: HeaderView,
    pub payload: Seq<u8>,
}

impl MessageView {
    /// The header's byte fields have their widths and the payload has the
    /// length the header declares.
    pub open spec fn wf(self) -> bool {
        self.header.wf() && self.payload.len() == self.header.size
    }

    /// The same frame with the authentication code replaced.
    pub open spec fn with_hmac(self, hmac: Seq<u8>) -> MessageView {
        MessageView { header: self.header.with_hmac(hmac), ..self }
    }
}

/// The 32 zero bytes that stand in the code field while a code is computed.
pub open spec fn zero_code() -> Seq<u8> {
    Seq::new(CODE_LEN as nat, |i: int| 0u8)
}

/// The bytes of a frame on the wire: the serialized header, then the payload.
pub open spec fn frame_bytes(m: MessageView) -> Seq<u8> {
    header_bytes(m.header) + m.payload
}

/// The bytes that the code is computed over: the whole frame with the code
/// field zeroed.
pub open spec fn signing_input(m: MessageView) -> Seq<u8> {
    frame_bytes(m.with_hmac(zero_code()))
}

/// The code that signing `m` with `key` stores.
pub open spec fn expected_code(m: MessageView, key: Seq<u8>) -> Seq<u8> {
    hmac_sha256(key, signing_input(m))
}

/// `m` carrying the code computed over it with `key`.
pub open spec fn signed(m: MessageView, key: Seq<u8>) -> MessageView {
    m.with_hmac(expected_code(m, key))
}

/// The code that `m` carries is the one that `key` gives for it.
pub open spec fn is_authentic(m: MessageView, key: Seq<u8>) -> bool {
    m.header.hmac == expected_code(m, key)
}

/// The frame made from the given fields before it is signed: zero code and
/// the payload's length as its size.
pub open spec fn unsigned_message(
    protocol_version: u8,
    packet_type: u8,
    uuid: Seq<u8>,
    timestamp: u64,
    payload: Seq<u8>,
) -> MessageView {
    MessageView {
        header: HeaderView {
            protocol_version,
            packet_type,
            uuid,
            timestamp,
            hmac: zero_code(),
            size: payload.len() as u32,
        },
        payload,
    }
}

/// The frame that construction yields at time `timestamp`.
pub open spec fn constructed(
    protocol_version: u8,
    packet_type: u8,
    uuid: Seq<u8>,
    timestamp: u64,
    key: Seq<u8>,
    payload: Seq<u8>,
) -> MessageView {
    signed(unsigned_message(protocol_version, packet_type, uuid, timestamp, payload), key)
}

/// The frame at the start of `b`: its header, then exactly as many payload
/// bytes as the header declares.
pub open spec fn frame_from_bytes(b: Seq<u8>) -> MessageView {
    let h = header_from_bytes(b);
    MessageView { header: h, payload: b.subrange(HEADER_LEN as int, HEADER_LEN + h.size) }
}

/// What decoding `b` gives: an error when the header or the declared payload
/// is cut short, else the frame at its start. Bytes after the declared
/// payload are not part of the frame.
pub open spec fn decoded(b: Seq<u8>) -> Result<MessageView, FormatError> {
    if b.len() < HEADER_LEN {
        Err(FormatError::TruncatedHeader)
    } else if b.len() < HEADER_LEN + header_from_bytes(b).size {
        Err(FormatError::TruncatedPayload)
    } else {
        Ok(frame_from_bytes(b))
    }
}

/// One frame: a header and the payload whose length it declares.
#[derive(Clone, Debug)]
pub struct D4Message {
    header: D4Header,
    body: Vec<u8>,
}

impl View for D4Message {
    type V = MessageView;

    closed spec fn view(&self) -> MessageView {
        MessageView { header: self.header@, payload: self.body@ }
    }
}

impl D4Message {
    /// Builds and signs a frame stamped with `timestamp`, in seconds since
    /// the Unix epoch.
    pub fn new_at(
        protocol_version: u8,
        packet_type: u8,
        sensor_uuid: &[u8; 16],
        key: &[u8],
        message: Vec<u8>,
        timestamp: u64,
    ) -> (r: D4Message)
        requires
            message@.len() <= u32::MAX,
        ensures
            r@ == constructed(
                protocol_version,
                packet_type,
                sensor_uuid@,
                timestamp,
                key@,
                message@,
            ),
            r@.wf(),
    {
        let zero: [u8; 32] = [0u8; 32];
        assert(zero@ =~= zero_code());
        let header = D4Header::new(
            protocol_version,
            packet_type,
            *sensor_uuid,
            timestamp,
            zero,
            message.len() as u32,
        );
        let mut d4_message = D4Message { header, body: message };
        assert(d4_message@ =~= unsigned_message(
            protocol_version,
            packet_type,
            sensor_uuid@,
            timestamp,
            message@,
        ));
        d4_message.compute_hmac(key);
        d4_message
    }

    /// Builds and signs a frame stamped with the current time; fails only
    /// when the clock reads a time before the Unix epoch.
    pub fn new(
        protocol_version: u8,
        packet_type: u8,
        sensor_uuid: &[u8; 16],
        key: &[u8],
        message: Vec<u8>,
    ) -> (r: Result<D4Message, ClockError>)
        requires
            message@.len() <= u32::MAX,
        ensures
            r matches Ok(m) ==> m@ == constructed(
                protocol_version,
                packet_type,
                sensor_uuid@,
                m@.header.timestamp,
                key@,
                message@,
            ) && m@.wf(),
            r matches Err(e) ==> e == ClockError::BeforeEpoch,
    {
        match unix_seconds() {
            Some(now) => Ok(
                D4Message::new_at(protocol_version, packet_type, sensor_uuid, key, message, now),
            ),
            None => Err(ClockError::BeforeEpoch),
        }
    }

    /// The bytes that the code is computed over.
    fn signing_bytes(&self) -> (r: Vec<u8>)
        ensures
            r@ == signing_input(self@),
    {
        let zero: [u8; 32] = [0u8; 32];
        assert(zero@ =~= zero_code());
        let zeroed = self.header.with_hmac(zero);
        let mut out = zeroed.serialize();
        append_bytes(&mut out, self.body.as_slice());
        out
    }

    /// Stores in the header the code computed with `secret_key` over the
    /// frame whose code field is zeroed.
    fn compute_hmac(&mut self, secret_key: &[u8])
        ensures
            final(self)@ == signed(old(self)@, secret_key@),
            final(self)@.header.hmac.len() == CODE_LEN,
    {
        let data = self.signing_bytes();
        let code = hmac_sha256_code(secret_key, data.as_slice());
        self.header = self.header.with_hmac(code);
        assert(self@ =~= signed(old(self)@, secret_key@));
    }

    /// Whether the carried code is the one `secret_key` gives for this frame.
    /// The codes are compared in constant time.
    pub fn verify(&self, secret_key: &[u8]) -> (r: bool)
        ensures
            r == is_authentic(self@, secret_key@),
    {
        let data = self.signing_bytes();
        let code = hmac_sha256_code(secret_key, data.as_slice());
        let carried = self.header.hmac();
        ct_eq(code.as_slice(), carried.as_slice())
    }

    /// The frame's bytes: the 62-byte header, then the payload.
    pub fn encode(&self) -> (r: Vec<u8>)
        ensures
            r@ == frame_bytes(self@),
    {
        let mut out = self.header.serialize();
        append_bytes(&mut out, self.body.as_slice());
        out
    }

    /// Reads the frame at the start of `data`. Bytes after the declared
    /// payload are ignored.
    pub fn decode(data: &[u8]) -> (r: Result<D4Message, FormatError>)
        ensures
            match r {
                Ok(m) => decoded(data@) == Ok::<MessageView, FormatError>(m@) && m@.wf(),
                Err(e) => decoded(data@) == Err::<MessageView, FormatError>(e),
            },
    {
        let header = match D4Header::parse(data) {
            Ok(h) => h,
            Err(e) => return Err(e),
        };
        let size = header.size() as usize;
        if data.len() - HEADER_LEN < size {
            return Err(FormatError::TruncatedPayload);
        }
        let mut body: Vec<u8> = Vec::with_capacity(size);
        append_bytes(&mut body, &data[HEADER_LEN..HEADER_LEN + size]);
        let m = D4Message { header, body };
        assert(m@ =~= frame_from_bytes(data@));
        Ok(m)
    }

    /// The frame's header.
    pub fn header(&self) -> (r: D4Header)
        ensures
            r@ == self@.header,
    {
        self.header
    }

    /// The frame's payload.
    pub fn payload(&self) -> (r: &[u8])
        ensures
            r@ == self@.payload,
    {
        self.body.as_slice()
    }
}

impl PartialEq for D4Message {
    fn eq(&self, other: &D4Message) -> bool {
        self.header == other.header && ct_eq(self.body.as_slice(), other.body.as_slice())
    }
}

impl vstd::std_specs::cmp::PartialEqSpecImpl for D4Message {
    open spec fn obeys_eq_spec() -> bool {
        true
    }

    open spec fn eq_spec(&self, other: &D4Message) -> bool {
        self@ == other@
    }
}

} // verus!
