//! URL-safe base64 without padding, the transport encoding used for nonces,
//! signatures and the encrypted metadata envelope.

use vstd::prelude::*;

verus! {

/// The URL-safe base64 (no padding) encoding of a byte sequence, as ASCII bytes.
pub uninterp spec fn b64_of(b: Seq<u8>) -> Seq<u8>;

/// The URL-safe base64 alphabet: `A`-`Z`, `a`-`z`, `0`-`9`, `-` and `_`.
pub open spec fn is_b64_byte(c: u8) -> bool {
    (65 <= c <= 90) || (97 <= c <= 122) || (48 <= c <= 57) || c == 45 || c == 95
}

/// Relies on base64's `URL_SAFE_NO_PAD` engine: the encoding is a function of
/// the input bytes alone and uses only the url-safe alphabet.
#[verifier::external_body]
pub(crate) fn b64_encode(b: &[u8]) -> (r: Vec<u8>)
    ensures
        r@ == b64_of(b@),
        forall|i: int| 0 <= i < r@.len() ==> is_b64_byte(#[trigger] r@[i]),
{
    base64::Engine::encode(&base64::engine::general_purpose::URL_SAFE_NO_PAD, b).into_bytes()
}

/// Relies on base64's `URL_SAFE_NO_PAD` engine: decoding succeeds exactly on
/// the canonical encodings and inverts `b64_encode`.
#[verifier::external_body]
pub(crate) fn b64_decode(s: &[u8]) -> (r: Option<Vec<u8>>)
    ensures
        r matches Some(v) ==> s@ == b64_of(v@),
        forall|b: Seq<u8>| s@ == #[trigger] b64_of(b) ==> r is Some && r->0@ == b,
{
    match base64::Engine::decode(&base64::engine::general_purpose::URL_SAFE_NO_PAD, s) {
        Ok(v) => Some(v),
        Err(_) => None,
    }
}

} // verus!
