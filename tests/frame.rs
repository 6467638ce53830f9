use d4::bytes::ct_eq;
use d4::header::{D4Header, HEADER_LEN};
use d4::little_endian::{push_u32_le, push_u64_le, read_u32_le, read_u64_le};
use d4::{D4Message, FormatError};
use hmac::{Hmac, Mac, NewMac};
use sha2::Sha256;
use uuid::Uuid;

fn sender() -> [u8; 16] {
    [1, 2, 3, 4, 5, 6, 7, 8, 9, 10, 11, 12, 13, 14, 15, 16]
}

fn hello_frame() -> D4Message {
    D4Message::new_at(1, 2, &sender(), b"secret", b"hello".to_vec(), 1_600_000_000)
}

fn reference_code(key: &[u8], data: &[u8]) -> Vec<u8> {
    let mut mac = <Hmac<Sha256> as NewMac>::new_from_slice(key).unwrap();
    mac.update(data);
    mac.finalize().into_bytes().to_vec()
}

#[test]
fn lib_encode_decode() {
    let protocol_version = 1;
    let packet_type = 1;
    let sensor_uuid = Uuid::new_v4();
    let key = String::from("My Hmac key");
    let message = String::from("blah");

    let message = D4Message::new(
        protocol_version,
        packet_type,
        sensor_uuid.as_bytes(),
        key.as_bytes(),
        Vec::from(message),
    )
    .unwrap();

    let encoded: Vec<u8> = message.encode();
    let decoded: D4Message = D4Message::decode(&encoded).unwrap();
    assert_eq!(message, decoded);
}

#[test]
fn main_encode_decode() {
    let protocol_version = 1;
    let packet_type = 1;
    let sensor_uuid = Uuid::new_v4();
    let key = String::from("My Hmac key");
    let message = String::from("blah");

    match D4Message::new(
        protocol_version,
        packet_type,
        sensor_uuid.as_bytes(),
        key.as_bytes(),
        Vec::from(message),
    ) {
        Err(why) => panic!("{:?}", why),
        Ok(message) => {
            let encoded: Vec<u8> = message.encode();
            let decoded: D4Message = D4Message::decode(&encoded).unwrap();
            assert_eq!(message, decoded);
        }
    }
}

#[test]
fn hello_frame_round_trip_and_verify() {
    let m = hello_frame();
    let encoded = m.encode();
    assert_eq!(encoded.len(), 67);
    let decoded = D4Message::decode(&encoded).unwrap();
    assert_eq!(decoded, m);
    assert!(decoded.verify(b"secret"));
    assert!(!decoded.verify(b"wrong"));
}

#[test]
fn hello_frame_with_clock() {
    let m = D4Message::new(1, 2, &sender(), b"secret", b"hello".to_vec()).unwrap();
    let encoded = m.encode();
    assert_eq!(encoded.len(), 67);
    let decoded = D4Message::decode(&encoded).unwrap();
    assert_eq!(decoded, m);
    assert!(decoded.verify(b"secret"));
    assert!(!decoded.verify(b"wrong"));
    assert!(m.header().timestamp() > 1_500_000_000);
}

#[test]
fn flipped_payload_bit_fails_verification() {
    let m = hello_frame();
    let mut payload = m.payload().to_vec();
    let last = payload.len() - 1;
    payload[last] ^= 1;
    let mut reencoded = m.header().serialize();
    reencoded.extend_from_slice(&payload);
    let decoded = D4Message::decode(&reencoded).unwrap();
    assert_eq!(decoded.payload(), b"helln");
    assert!(!decoded.verify(b"secret"));
}

#[test]
fn short_header_rejected() {
    let buf = vec![0u8; 61];
    assert_eq!(D4Message::decode(&buf), Err(FormatError::TruncatedHeader));
}

#[test]
fn missing_payload_rejected() {
    let mut buf = vec![0u8; 62];
    buf[58] = 10;
    assert_eq!(D4Message::decode(&buf), Err(FormatError::TruncatedPayload));
}

#[test]
fn truncation_rejected_at_every_length() {
    let encoded = hello_frame().encode();
    for n in 0..HEADER_LEN {
        assert_eq!(D4Message::decode(&encoded[..n]), Err(FormatError::TruncatedHeader));
    }
    for n in HEADER_LEN..encoded.len() {
        assert_eq!(D4Message::decode(&encoded[..n]), Err(FormatError::TruncatedPayload));
    }
    assert!(D4Message::decode(&encoded).is_ok());
}

#[test]
fn trailing_bytes_ignored() {
    let m = hello_frame();
    let mut encoded = m.encode();
    encoded.extend_from_slice(&[9, 9, 9]);
    let decoded = D4Message::decode(&encoded).unwrap();
    assert_eq!(decoded, m);
    assert_eq!(decoded.encode().len(), 67);
}

#[test]
fn empty_payload_round_trip() {
    let m = D4Message::new_at(3, 4, &sender(), b"k", Vec::new(), 0);
    let encoded = m.encode();
    assert_eq!(encoded.len(), HEADER_LEN);
    let decoded = D4Message::decode(&encoded).unwrap();
    assert_eq!(decoded, m);
    assert_eq!(decoded.header().size(), 0);
    assert!(decoded.verify(b"k"));
}

#[test]
fn wire_layout_is_exact() {
    let m = D4Message::new_at(1, 2, &sender(), b"secret", b"hello".to_vec(), 0x0102030405060708);
    let e = m.encode();
    assert_eq!(e[0], 1);
    assert_eq!(e[1], 2);
    assert_eq!(&e[2..18], &sender());
    assert_eq!(&e[18..26], &[8, 7, 6, 5, 4, 3, 2, 1]);
    assert_eq!(&e[26..58], &m.header().hmac());
    assert_eq!(&e[58..62], &[5, 0, 0, 0]);
    assert_eq!(&e[62..], b"hello");
}

#[test]
fn code_is_hmac_of_zeroed_frame() {
    let m = hello_frame();
    let mut zeroed = m.encode();
    for b in &mut zeroed[26..58] {
        *b = 0;
    }
    let expected = reference_code(b"secret", &zeroed);
    assert_eq!(m.header().hmac().to_vec(), expected);
    assert_ne!(m.header().hmac(), [0u8; 32]);
}

#[test]
fn long_key_signs_and_verifies() {
    let key = vec![0xabu8; 200];
    let m = D4Message::new_at(1, 1, &sender(), &key, b"payload".to_vec(), 42);
    assert!(m.verify(&key));
    assert!(!m.verify(&key[..199]));
    let mut zeroed = m.encode();
    for b in &mut zeroed[26..58] {
        *b = 0;
    }
    assert_eq!(m.header().hmac().to_vec(), reference_code(&key, &zeroed));
}

#[test]
fn other_keys_do_not_verify() {
    let m = hello_frame();
    for key in [&b""[..], b"Secret", b"secret ", b"secre", b"wrong", b"secret\x01"] {
        assert!(!m.verify(key));
    }
    assert!(m.verify(b"secret"));
}

#[test]
fn zero_padded_key_is_the_same_key() {
    // HMAC pads short keys with zero bytes, so appending zeros gives an equal key.
    let m = hello_frame();
    assert!(m.verify(b"secret\0"));
    assert!(m.verify(b"secret\0\0"));
}

#[test]
fn any_flipped_byte_fails_verification() {
    let encoded = hello_frame().encode();
    for i in 0..encoded.len() {
        if (58..62).contains(&i) {
            continue;
        }
        let mut t = encoded.clone();
        t[i] ^= 0x80;
        let decoded = D4Message::decode(&t).unwrap();
        assert!(!decoded.verify(b"secret"), "byte {} flipped still verifies", i);
    }
}

#[test]
fn changed_size_field_fails_or_is_rejected() {
    let mut t = hello_frame().encode();
    t[58] = 4;
    let decoded = D4Message::decode(&t).unwrap();
    assert_eq!(decoded.payload(), b"hell");
    assert!(!decoded.verify(b"secret"));
    t[58] = 6;
    assert_eq!(D4Message::decode(&t), Err(FormatError::TruncatedPayload));
}

#[test]
fn header_round_trip_and_parse() {
    let h = D4Header::new(7, 9, sender(), 123456789, [5u8; 32], 77);
    let bytes = h.serialize();
    assert_eq!(bytes.len(), HEADER_LEN);
    let p = D4Header::parse(&bytes).unwrap();
    assert_eq!(p, h);
    assert_eq!(p.protocol_version(), 7);
    assert_eq!(p.packet_type(), 9);
    assert_eq!(p.uuid(), sender());
    assert_eq!(p.timestamp(), 123456789);
    assert_eq!(p.hmac(), [5u8; 32]);
    assert_eq!(p.size(), 77);
    assert_eq!(D4Header::parse(&bytes[..61]), Err(FormatError::TruncatedHeader));
    assert_ne!(h, h.with_hmac([6u8; 32]));
}

#[test]
fn message_equality_is_fieldwise() {
    let a = hello_frame();
    let b = D4Message::new_at(1, 2, &sender(), b"secret", b"hello".to_vec(), 1_600_000_001);
    let c = D4Message::new_at(1, 2, &sender(), b"secret", b"hellp".to_vec(), 1_600_000_000);
    assert_eq!(a, a.clone());
    assert_ne!(a, b);
    assert_ne!(a, c);
}

#[test]
fn little_endian_helpers() {
    let mut out = vec![0xffu8];
    push_u32_le(&mut out, 0x0a0b0c0d);
    push_u64_le(&mut out, 0x0102030405060708);
    assert_eq!(out, vec![0xff, 0x0d, 0x0c, 0x0b, 0x0a, 8, 7, 6, 5, 4, 3, 2, 1]);
    assert_eq!(read_u32_le(&out, 1), 0x0a0b0c0d);
    assert_eq!(read_u64_le(&out, 5), 0x0102030405060708);
}

#[test]
fn constant_time_compare() {
    assert!(ct_eq(b"abc", b"abc"));
    assert!(!ct_eq(b"abc", b"abd"));
    assert!(!ct_eq(b"abc", b"ab"));
    assert!(ct_eq(b"", b""));
}
