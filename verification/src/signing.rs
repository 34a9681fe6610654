//! Canonical Request Builder and Signing-Key Deriver: the byte-exact strings
//! of the signing scheme and the fixed keyed-hash chain over them.

use vstd::prelude::*;
use vstd::string::StringExecFns;
use vstd::utf8::encode_utf8;
use crate::digest::{
    hex_of,
    hmac_sha256_of,
    sha256_of,
    hmac_sha256,
    hex_encode,
    to_hexdigest,
    is_lower_hex_char,
    lemma_hex_of_shape,
};
use crate::timestamp::{Timestamp, spec_date, spec_datetime, format_date, format_datetime};

verus! {

/// The canonical textual form of the pseudo-request, determined by path and
/// host alone: method placeholder `GIT`, the path, an empty query, the one
/// signed `host` header, and the signed-header list.
pub open spec fn spec_canonical_request(path: Seq<char>, host: Seq<char>) -> Seq<char> {
    "GIT\n"@ + path + "\n\nhost:"@ + host + "\n\nhost\n"@
}

/// Builds the canonical request string, byte-for-byte exact.
pub fn canonical_request(path: &str, host: &str) -> (r: String)
    ensures
        r@ == spec_canonical_request(path@, host@),
{
    let mut r = String::from_str("GIT\n");
    r.append(path);
    r.append("\n\nhost:");
    r.append(host);
    r.append("\n\nhost\n");
    proof {
        assert(r@ =~= spec_canonical_request(path@, host@));
    }
    r
}

/// The string actually signed: the algorithm tag, the date-time, the scope
/// line, and the hex digest of the canonical request.
pub open spec fn spec_string_to_sign(
    ts: Timestamp,
    region: Seq<char>,
    host: Seq<char>,
    path: Seq<char>,
) -> Seq<char> {
    "AWS4-HMAC-SHA256\n"@ + spec_datetime(ts) + "\n"@ + spec_date(ts) + "/"@ + region
        + "/codecommit/aws4_request\n"@ + hex_of(
        sha256_of(encode_utf8(spec_canonical_request(path, host))),
    )
}

/// Builds the string-to-sign for one invocation.
pub fn string_to_sign(ts: &Timestamp, region: &str, host: &str, path: &str) -> (r: String)
    requires
        ts.wf(),
    ensures
        r@ == spec_string_to_sign(*ts, region@, host@, path@),
{
    let canon = canonical_request(path, host);
    let canon_digest = to_hexdigest(canon.as_str());
    let datetime = format_datetime(ts);
    let date = format_date(ts);
    let mut r = String::from_str("AWS4-HMAC-SHA256\n");
    r.append(datetime.as_str());
    r.append("\n");
    r.append(date.as_str());
    r.append("/");
    r.append(region);
    r.append("/codecommit/aws4_request\n");
    r.append(canon_digest.as_str());
    proof {
        assert(r@ =~= spec_string_to_sign(*ts, region@, host@, path@));
    }
    r
}

/// The scoped signing key: a fixed chain of HMAC-SHA256 rounds that narrows
/// the secret to one date, region and service.
pub open spec fn spec_signing_key(
    secret: Seq<char>,
    date: Seq<char>,
    region: Seq<char>,
    service: Seq<char>,
) -> Seq<u8> {
    let k_date = hmac_sha256_of(encode_utf8("AWS4"@ + secret), encode_utf8(date));
    let k_region = hmac_sha256_of(k_date, encode_utf8(region));
    let k_service = hmac_sha256_of(k_region, encode_utf8(service));
    hmac_sha256_of(k_service, encode_utf8("aws4_request"@))
}

/// Derives the scoped signing key from the secret, the compact date, the
/// region and the service name.
pub fn signing_key(secret: &str, date: &str, region: &str, service: &str) -> (r: Vec<u8>)
    ensures
        r@ == spec_signing_key(secret@, date@, region@, service@),
        r@.len() == 32,
{
    let mut seed = String::from_str("AWS4");
    seed.append(secret);
    let k_date = hmac_sha256(seed.as_str().as_bytes(), date.as_bytes());
    let k_region = hmac_sha256(k_date.as_slice(), region.as_bytes());
    let k_service = hmac_sha256(k_region.as_slice(), service.as_bytes());
    hmac_sha256(k_service.as_slice(), "aws4_request".as_bytes())
}

/// The signing-key derivation is deterministic: identical secret, date,
/// region and service always yield the identical key.
pub proof fn lemma_signing_key_deterministic(
    s1: Seq<char>,
    d1: Seq<char>,
    r1: Seq<char>,
    v1: Seq<char>,
    s2: Seq<char>,
    d2: Seq<char>,
    r2: Seq<char>,
    v2: Seq<char>,
)
    requires
        s1 == s2,
        d1 == d2,
        r1 == r2,
        v1 == v2,
    ensures
        spec_signing_key(s1, d1, r1, v1) == spec_signing_key(s2, d2, r2, v2),
{
}

/// The final signature: the lowercase hex encoding of the HMAC-SHA256 tag of
/// the string-to-sign under the scoped signing key.
pub open spec fn spec_signature(string_to_sign: Seq<char>, key: Seq<u8>) -> Seq<char> {
    hex_of(hmac_sha256_of(key, encode_utf8(string_to_sign)))
}

/// Signs the string-to-sign with the scoped signing key and hex-encodes the
/// tag: always exactly 64 lowercase hexadecimal characters.
pub fn signature(string_to_sign: &str, signing_key: &[u8]) -> (r: String)
    ensures
        r@ == spec_signature(string_to_sign@, signing_key@),
        r@.len() == 64,
        forall|i: int| 0 <= i < r@.len() ==> is_lower_hex_char(r@[i]),
{
    let tag = hmac_sha256(signing_key, string_to_sign.as_bytes());
    let r = hex_encode(tag.as_slice());
    proof {
        lemma_hex_of_shape(tag@);
    }
    r
}

} // verus!
