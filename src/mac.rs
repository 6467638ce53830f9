//! The keyed authentication code and its comparison.
use hmac::{Hmac, Mac, NewMac};
use sha2::Sha256;
use vstd::prelude::*;

verus! {

/// The HMAC-SHA-256 code of `data` under `key` (RFC 2104 over SHA-256).
pub uninterp spec fn hmac_sha256(key: Seq<u8>, data: Seq<u8>) -> Seq<u8>;

/// Relies on `hmac::Hmac<sha2::Sha256>`: `NewMac::new_from_slice` accepts a
/// key of any length (a key longer than the block is hashed first, so it
/// never returns an error), and `Mac::update` then `Mac::finalize` yield the
/// 32-byte code of `data` under `key`.
#[verifier::external_body]
pub(crate) fn hmac_sha256_code(key: &[u8], data: &[u8]) -> (r: [u8; 32])
    ensures
        r@ == hmac_sha256(key@, data@),
{
    let mut mac = <Hmac<Sha256> as NewMac>::new_from_slice(key).expect("HMAC accepts any key length");
    mac.update(data);
    mac.finalize().into_bytes().into()
}

} // verus!
