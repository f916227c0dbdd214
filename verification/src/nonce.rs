//! Extraction of the server-issued challenge nonce from the authentication
//! response header, with an exact classification of every malformed shape.
//!
//! The header is expected to carry `<scheme> <base64-nonce>`: the nonce is the
//! base64 decoding of the second space-separated token.

use vstd::prelude::*;
use crate::b64::{b64_decode, b64_of};
use crate::bytes::copy_range;
use crate::json::byte_index;
use crate::json::find_byte;

verus! {

/// Errors of the authentication (first) nonce stage.
#[derive(Debug, Clone, Copy, PartialEq, Eq, Structural)]
pub enum AuthError {
    /// The nonce request itself failed.
    NonceReqFail,
    /// The nonce request returned a non-success status.
    NonceReqStatusErr,
    /// The nonce header is absent, or holds no second token.
    MissingNonceHeader,
    /// The nonce header is present but empty.
    EmptyNonceHeader,
    /// The nonce header is not valid UTF-8.
    MalformedNonceHeader,
    /// The nonce token is not valid base64.
    MalformedNonce,
}

/// Errors of the metadata (second) stage.
#[derive(Debug, Clone, Copy, PartialEq, Eq, Structural)]
pub enum MetaError {
    /// The signature over the authentication nonce could not be computed.
    ComputeSignatureFail,
    /// The metadata request itself failed.
    NonceReqFail,
    /// The metadata request returned a non-success status.
    NonceReqStatusErr,
    /// The nonce header is absent, or holds no second token.
    MissingNonceHeader,
    /// The nonce header is present but empty.
    EmptyNonceHeader,
    /// The nonce header is not valid UTF-8.
    MalformedNonceHeader,
    /// The nonce token is not valid base64.
    MalformedNonce,
    /// The metadata envelope or record could not be read.
    MalformedMetadata,
    /// The metadata tag check failed.
    DecryptMetadataFail,
}

/// The metadata-stage classification of an authentication-stage nonce error.
pub open spec fn spec_meta_of_auth(e: AuthError) -> MetaError {
    match e {
        AuthError::NonceReqFail => MetaError::NonceReqFail,
        AuthError::NonceReqStatusErr => MetaError::NonceReqStatusErr,
        AuthError::MissingNonceHeader => MetaError::MissingNonceHeader,
        AuthError::EmptyNonceHeader => MetaError::EmptyNonceHeader,
        AuthError::MalformedNonceHeader => MetaError::MalformedNonceHeader,
        AuthError::MalformedNonce => MetaError::MalformedNonce,
    }
}

/// Re-tag a nonce error of the metadata stage.
pub fn meta_error_of(e: AuthError) -> (r: MetaError)
    ensures
        r == spec_meta_of_auth(e),
{
    match e {
        AuthError::NonceReqFail => MetaError::NonceReqFail,
        AuthError::NonceReqStatusErr => MetaError::NonceReqStatusErr,
        AuthError::MissingNonceHeader => MetaError::MissingNonceHeader,
        AuthError::EmptyNonceHeader => MetaError::EmptyNonceHeader,
        AuthError::MalformedNonceHeader => MetaError::MalformedNonceHeader,
        AuthError::MalformedNonce => MetaError::MalformedNonce,
    }
}

/// Whether a byte sequence is valid UTF-8.
pub uninterp spec fn is_utf8(b: Seq<u8>) -> bool;

/// Relies on std's `str::from_utf8`: it accepts exactly the valid UTF-8 byte
/// sequences, of which the ASCII sequences are a subset.
#[verifier::external_body]
pub(crate) fn check_utf8(b: &[u8]) -> (r: bool)
    ensures
        r == is_utf8(b@),
        (forall|i: int| 0 <= i < b@.len() ==> #[trigger] b@[i] < 128) ==> r,
{
    std::str::from_utf8(b).is_ok()
}

/// The second space-separated token of `h`, under the splitting rule used on
/// the header: every space separates tokens, and a final empty token (a
/// trailing space at the end) yields nothing.
pub open spec fn second_token(h: Seq<u8>) -> Option<Seq<u8>> {
    let i = byte_index(h, 0, 32u8);
    if i == h.len() {
        None
    } else if i + 1 == h.len() {
        None
    } else {
        Some(h.subrange(i + 1, byte_index(h, i + 1, 32u8)))
    }
}

/// The nonce a header value yields, or the exact error classifying why it
/// yields none: absent header, empty header, non-UTF-8 header, no second
/// token, or a second token that is not valid base64.
pub open spec fn spec_parse_nonce(h: Option<Seq<u8>>) -> Result<Seq<u8>, AuthError> {
    match h {
        None => Err(AuthError::MissingNonceHeader),
        Some(b) => if b.len() == 0 {
            Err(AuthError::EmptyNonceHeader)
        } else if !is_utf8(b) {
            Err(AuthError::MalformedNonceHeader)
        } else {
            match second_token(b) {
                None => Err(AuthError::MissingNonceHeader),
                Some(t) => if exists|d: Seq<u8>| t == #[trigger] b64_of(d) {
                    Ok(choose|d: Seq<u8>| t == #[trigger] b64_of(d))
                } else {
                    Err(AuthError::MalformedNonce)
                },
            }
        },
    }
}

/// Decode the challenge nonce from an authentication header value, exactly as
/// `spec_parse_nonce` classifies it.
pub fn parse_nonce_header(header: Option<&Vec<u8>>) -> (r: Result<Vec<u8>, AuthError>)
    ensures
        ({
            let hs = match header {
                Some(v) => Some(v@),
                None => None::<Seq<u8>>,
            };
            match (r, spec_parse_nonce(hs)) {
                (Ok(v), Ok(n)) => v@ == n,
                (Err(e), Err(f)) => e == f,
                _ => false,
            }
        }),
{
    match header {
        None => Err(AuthError::MissingNonceHeader),
        Some(h) => {
            if h.len() == 0 {
                return Err(AuthError::EmptyNonceHeader);
            }
            if !check_utf8(h.as_slice()) {
                return Err(AuthError::MalformedNonceHeader);
            }
            let i = find_byte(h.as_slice(), 0, 32u8);
            if i == h.len() {
                return Err(AuthError::MissingNonceHeader);
            }
            if i + 1 == h.len() {
                return Err(AuthError::MissingNonceHeader);
            }
            let j = find_byte(h.as_slice(), i + 1, 32u8);
            let tok = copy_range(h.as_slice(), i + 1, j);
            match b64_decode(tok.as_slice()) {
                Some(v) => {
                    proof {
                        let c = choose|d: Seq<u8>| tok@ == b64_of(d);
                        assert(tok@ == b64_of(v@));
                        assert(tok@ == b64_of(c));
                        assert(v@ == c);
                    }
                    Ok(v)
                }
                None => {
                    proof {
                        if exists|d: Seq<u8>| tok@ == #[trigger] b64_of(d) {
                            let c = choose|d: Seq<u8>| tok@ == b64_of(d);
                            assert(tok@ == b64_of(c));
                            assert(false);
                        }
                    }
                    Err(AuthError::MalformedNonce)
                }
            }
        }
    }
}

} // verus!
