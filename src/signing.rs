//! HMAC-SHA256 signatures in lowercase hexadecimal.

use vstd::prelude::*;
use vstd::utf8::encode_utf8;

verus! {

/// Largest number of bytes that a key or a message handed to the signer may
/// hold: SHA-256 processes at most 2^61 bytes in total, and the HMAC inner
/// hash prepends one block to the message.
pub const MAX_SIGNED_LEN: u64 = 0x1000_0000_0000_0000;

/// What HMAC-SHA256 yields for a key and a message.
pub uninterp spec fn hmac_sha256_of(key: Seq<u8>, message: Seq<u8>) -> Seq<u8>;

/// The lowercase hexadecimal digit for a value below sixteen.
pub open spec fn hex_digit(n: int) -> char
    recommends
        0 <= n < 16,
{
    "0123456789abcdef"@[n]
}

/// Two lowercase hexadecimal digits per byte, high nibble first.
pub open spec fn hex_of(bytes: Seq<u8>) -> Seq<char> {
    Seq::new(
        2 * bytes.len(),
        |i: int|
            if i % 2 == 0 {
                hex_digit(bytes[i / 2] as int / 16)
            } else {
                hex_digit(bytes[i / 2] as int % 16)
            },
    )
}

/// The signature of `message` under `key`: the hex text of its HMAC-SHA256.
pub open spec fn signature_of(key: Seq<u8>, message: Seq<u8>) -> Seq<char> {
    hex_of(hmac_sha256_of(key, message))
}

/// Whether a byte string is short enough to be signed or used as a key.
pub open spec fn signable(bytes: Seq<u8>) -> bool {
    bytes.len() < MAX_SIGNED_LEN
}

/// Relies on ring::hmac::Key::new and ring::hmac::sign with HMAC_SHA256:
/// the tag is the HMAC-SHA256 of the message, 32 bytes long. Both calls
/// panic only on inputs of 2^61 bytes or more.
#[verifier::external_body]
fn hmac_sha256(key: &[u8], message: &[u8]) -> (r: Vec<u8>)
    requires
        signable(key@),
        signable(message@),
    ensures
        r@ == hmac_sha256_of(key@, message@),
        r@.len() == 32,
{
    let key = ring::hmac::Key::new(ring::hmac::HMAC_SHA256, key);
    ring::hmac::sign(&key, message).as_ref().to_vec()
}

/// Relies on hex::encode: two lowercase digits from "0123456789abcdef" for
/// each byte, high nibble first.
#[verifier::external_body]
fn hex_encode(bytes: &[u8]) -> (r: String)
    ensures
        r@ == hex_of(bytes@),
{
    hex::encode(bytes)
}

/// Signs `message` with `secret_key`, giving the 64 lowercase hex digits of
/// its HMAC-SHA256.
pub fn sign(secret_key: &[u8], message: &[u8]) -> (r: String)
    requires
        signable(secret_key@),
        signable(message@),
    ensures
        r@ == signature_of(secret_key@, message@),
        r@.len() == 64,
{
    let tag = hmac_sha256(secret_key, message);
    hex_encode(tag.as_slice())
}

/// Signing is a function of the key and the message: equal inputs give equal
/// signatures, and a 32-byte tag gives 64 hexadecimal digits.
pub proof fn lemma_sign_deterministic(key1: Seq<u8>, message1: Seq<u8>, key2: Seq<u8>, message2: Seq<u8>)
    requires
        key1 == key2,
        message1 == message2,
    ensures
        signature_of(key1, message1) == signature_of(key2, message2),
        hmac_sha256_of(key1, message1).len() == 32 ==> signature_of(key1, message1).len() == 64,
{
}

} // verus!
