//! Properties that relate encoding, decoding, signing and verification.
use crate::error::FormatError;
use crate::header::{
    header_bytes, header_from_bytes, lemma_header_bytes_len, lemma_header_bytes_of_parsed,
    lemma_header_from_prefix, lemma_header_round_trip, HEADER_LEN,
};
use crate::mac::hmac_sha256;
use crate::message::{
    constructed, decoded, frame_bytes, is_authentic, signed, signing_input,
    unsigned_message, zero_code, MessageView,
};
use vstd::prelude::*;

verus! {

/// Decoding the bytes of a well-formed frame gives that frame back.
pub proof fn law_decode_encode(m: MessageView)
    requires
        m.wf(),
    ensures
        decoded(frame_bytes(m)) == Ok::<MessageView, FormatError>(m),
{
    let b = frame_bytes(m);
    lemma_header_bytes_len(m.header);
    assert(b.subrange(0, HEADER_LEN as int) =~= header_bytes(m.header).subrange(
        0,
        HEADER_LEN as int,
    ));
    lemma_header_from_prefix(b, header_bytes(m.header));
    lemma_header_round_trip(m.header);
    assert(b.subrange(HEADER_LEN as int, HEADER_LEN + m.header.size) =~= m.payload);
}

/// A successful decode reads exactly the frame's bytes: encoding the result
/// gives back the input up to the end of the declared payload.
pub proof fn law_encode_decoded(b: Seq<u8>)
    requires
        decoded(b) is Ok,
    ensures
        frame_bytes(decoded(b)->Ok_0) == b.subrange(
            0,
            HEADER_LEN + header_from_bytes(b).size,
        ),
{
    lemma_header_bytes_of_parsed(b);
    let m = decoded(b)->Ok_0;
    assert(frame_bytes(m) =~= b.subrange(0, HEADER_LEN + header_from_bytes(b).size));
}

/// Input shorter than a header, or shorter than the payload its header
/// declares, is rejected.
pub proof fn law_truncated_input_rejected(b: Seq<u8>)
    ensures
        b.len() < HEADER_LEN ==> decoded(b) == Err::<MessageView, FormatError>(
            FormatError::TruncatedHeader,
        ),
        b.len() >= HEADER_LEN && b.len() - HEADER_LEN < header_from_bytes(b).size ==> decoded(b)
            == Err::<MessageView, FormatError>(FormatError::TruncatedPayload),
{
}

/// A signed frame verifies under the key it was signed with.
pub proof fn law_signed_is_authentic(m: MessageView, key: Seq<u8>)
    ensures
        is_authentic(signed(m, key), key),
{
    assert(signed(m, key).with_hmac(zero_code()) == m.with_hmac(zero_code()));
}

/// A freshly constructed frame verifies under the key it was built with.
pub proof fn law_constructed_verifies(
    protocol_version: u8,
    packet_type: u8,
    uuid: Seq<u8>,
    timestamp: u64,
    key: Seq<u8>,
    payload: Seq<u8>,
)
    ensures
        is_authentic(constructed(protocol_version, packet_type, uuid, timestamp, key, payload), key),
{
    law_signed_is_authentic(
        unsigned_message(protocol_version, packet_type, uuid, timestamp, payload),
        key,
    );
}

/// The code covers every field but itself: two well-formed frames whose
/// signing inputs are equal agree on everything but their codes.
pub proof fn law_signing_input_covers_frame(m1: MessageView, m2: MessageView)
    requires
        m1.wf(),
        m2.wf(),
        signing_input(m1) == signing_input(m2),
    ensures
        m1.with_hmac(zero_code()) == m2.with_hmac(zero_code()),
{
    law_decode_encode(m1.with_hmac(zero_code()));
    law_decode_encode(m2.with_hmac(zero_code()));
}

/// Tampering: when a signed frame is altered anywhere but in its code and
/// keeps the code it carried, the altered frame verifies under the key only
/// if HMAC-SHA-256 under that key gives two different inputs the same code.
pub proof fn law_tampered_verifies_only_on_collision(
    m: MessageView,
    tampered: MessageView,
    key: Seq<u8>,
)
    requires
        m.wf(),
        tampered.wf(),
        is_authentic(m, key),
        tampered.header.hmac == m.header.hmac,
        tampered.with_hmac(zero_code()) != m.with_hmac(zero_code()),
        is_authentic(tampered, key),
    ensures
        signing_input(tampered) != signing_input(m),
        hmac_sha256(key, signing_input(tampered)) == hmac_sha256(key, signing_input(m)),
{
    if signing_input(tampered) == signing_input(m) {
        law_signing_input_covers_frame(tampered, m);
    }
}

} // verus!
