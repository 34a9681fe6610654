//! Digest primitives: hex encoding of SHA-256 digests and HMAC-SHA256 keyed
//! signing. Pure functions with no state.

use vstd::prelude::*;
use vstd::utf8::encode_utf8;

verus! {

/// The lowercase hexadecimal digit for a value below sixteen.
pub open spec fn hex_digit_char(v: int) -> char {
    if v == 0 {
        '0'
    } else if v == 1 {
        '1'
    } else if v == 2 {
        '2'
    } else if v == 3 {
        '3'
    } else if v == 4 {
        '4'
    } else if v == 5 {
        '5'
    } else if v == 6 {
        '6'
    } else if v == 7 {
        '7'
    } else if v == 8 {
        '8'
    } else if v == 9 {
        '9'
    } else if v == 10 {
        'a'
    } else if v == 11 {
        'b'
    } else if v == 12 {
        'c'
    } else if v == 13 {
        'd'
    } else if v == 14 {
        'e'
    } else {
        'f'
    }
}

/// Lowercase hexadecimal encoding of a byte sequence: two digits per byte,
/// high nibble first.
pub open spec fn hex_of(b: Seq<u8>) -> Seq<char>
    decreases b.len(),
{
    if b.len() == 0 {
        Seq::empty()
    } else {
        seq![hex_digit_char(b[0] as int / 16), hex_digit_char(b[0] as int % 16)] + hex_of(
            b.drop_first(),
        )
    }
}

/// A character that can appear in a lowercase hexadecimal encoding.
pub open spec fn is_lower_hex_char(c: char) -> bool {
    exists|v: int| 0 <= v < 16 && c == hex_digit_char(v)
}

/// A hexadecimal encoding is twice as long as its input and consists of
/// lowercase hexadecimal digits only.
pub proof fn lemma_hex_of_shape(b: Seq<u8>)
    ensures
        hex_of(b).len() == 2 * b.len(),
        forall|i: int| 0 <= i < hex_of(b).len() ==> is_lower_hex_char(#[trigger] hex_of(b)[i]),
    decreases b.len(),
{
    if b.len() == 0 {
    } else {
        lemma_hex_of_shape(b.drop_first());
        assert forall|i: int| 0 <= i < hex_of(b).len() implies is_lower_hex_char(
            #[trigger] hex_of(b)[i],
        ) by {
            if i == 0 {
                let v = b[0] as int / 16;
                assert(0 <= v < 16);
                assert(hex_of(b)[i] == hex_digit_char(v));
            } else if i == 1 {
                let v = b[0] as int % 16;
                assert(0 <= v < 16);
                assert(hex_of(b)[i] == hex_digit_char(v));
            } else {
                assert(hex_of(b)[i] == hex_of(b.drop_first())[i - 2]);
            }
        }
    }
}

/// The SHA-256 digest of a byte sequence, as `ring::digest` computes it.
pub uninterp spec fn sha256_of(data: Seq<u8>) -> Seq<u8>;

/// The HMAC-SHA256 tag over a key and a message, as `ring::hmac` computes it.
pub uninterp spec fn hmac_sha256_of(key: Seq<u8>, msg: Seq<u8>) -> Seq<u8>;

/// Relies on `ring::digest::digest` with the SHA256 algorithm: the digest is
/// a function of the input bytes alone and is 32 bytes long.
#[verifier::external_body]
fn sha256(data: &[u8]) -> (r: Vec<u8>)
    ensures
        r@ == sha256_of(data@),
        r@.len() == 32,
{
    ring::digest::digest(&ring::digest::SHA256, data).as_ref().to_vec()
}

/// Relies on `ring::hmac`: `Key::new` with the HMAC_SHA256 algorithm followed
/// by `sign`. The tag is a function of the key bytes and the message bytes
/// alone and is 32 bytes long.
#[verifier::external_body]
pub(crate) fn hmac_sha256(key: &[u8], msg: &[u8]) -> (r: Vec<u8>)
    ensures
        r@ == hmac_sha256_of(key@, msg@),
        r@.len() == 32,
{
    let k = ring::hmac::Key::new(ring::hmac::HMAC_SHA256, key);
    ring::hmac::sign(&k, msg).as_ref().to_vec()
}

/// Relies on `hex::encode`: lowercase hexadecimal, two digits per byte, high
/// nibble first.
#[verifier::external_body]
pub(crate) fn hex_encode(data: &[u8]) -> (r: String)
    ensures
        r@ == hex_of(data@),
{
    hex::encode(data)
}

/// The lowercase hex encoding of the SHA-256 digest of the UTF-8 bytes of
/// `t`: always exactly 64 lowercase hexadecimal characters.
pub fn to_hexdigest(t: &str) -> (r: String)
    ensures
        r@ == hex_of(sha256_of(encode_utf8(t@))),
        r@.len() == 64,
        forall|i: int| 0 <= i < r@.len() ==> is_lower_hex_char(r@[i]),
{
    let bytes = t.as_bytes();
    let digest = sha256(bytes);
    let r = hex_encode(digest.as_slice());
    proof {
        lemma_hex_of_shape(digest@);
    }
    r
}

} // verus!
