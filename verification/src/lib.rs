//! Client-side core of an end-to-end encrypted file retrieval protocol.
//!
//! A shared secret is expanded into per-resource keys; a two-stage
//! nonce/signature handshake authorizes fetching encrypted metadata and the
//! file body; the body stream is decrypted speculatively and authenticated
//! against its trailing tag before the plaintext may be accepted.

pub mod b64;
pub mod bytes;
pub mod crypto;
pub mod download;
pub mod json;
pub mod keys;
pub mod metadata;
pub mod nonce;
pub mod progress;
pub mod writer;
