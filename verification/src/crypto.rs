//! Trusted wrappers around the cryptographic primitives of the scheme:
//! HKDF-SHA256 key expansion, HMAC-SHA256 signatures and AES-128-GCM.

use vstd::prelude::*;

verus! {

/// The HKDF-SHA256 output keying material (no salt) for a secret, an info
/// string and an output length.
pub uninterp spec fn hkdf_of(secret: Seq<u8>, info: Seq<u8>, n: nat) -> Seq<u8>;

/// The HMAC-SHA256 tag of a message under a key.
pub uninterp spec fn hmac_of(key: Seq<u8>, msg: Seq<u8>) -> Seq<u8>;

/// The plaintext that AES-128-GCM decryption (empty associated data) yields
/// for a ciphertext under a key and a 96-bit nonce, tag check left aside.
pub uninterp spec fn gcm_plain_of(key: Seq<u8>, iv: Seq<u8>, ct: Seq<u8>) -> Seq<u8>;

/// The 16-byte authentication tag AES-128-GCM computes over a ciphertext
/// (empty associated data) under a key and a 96-bit nonce.
pub uninterp spec fn gcm_tag_of(key: Seq<u8>, iv: Seq<u8>, ct: Seq<u8>) -> Seq<u8>;

/// Relies on hkdf's `Hkdf::<Sha256>::new` and `expand`: the output keying
/// material is a function of secret, info and length alone, and `expand`
/// fills exactly the requested length (it accepts any length up to 255 hash
/// blocks, far above what is asked here).
#[verifier::external_body]
pub(crate) fn hkdf_expand(secret: &[u8], info: &[u8], n: usize) -> (r: Vec<u8>)
    requires
        n <= 8160,
    ensures
        r@ == hkdf_of(secret@, info@, n as nat),
        r@.len() == n,
{
    let mut out = vec![0u8; n];
    hkdf::Hkdf::<sha2::Sha256>::new(None, secret)
        .expand(info, &mut out)
        .expect("output length is within the hkdf bound");
    out
}

/// Relies on hmac's `Hmac::<Sha256>` (`new_from_slice` accepts keys of any
/// length): the 32-byte tag is a function of key and message alone.
#[verifier::external_body]
pub(crate) fn hmac_sign(key: &[u8], msg: &[u8]) -> (r: Vec<u8>)
    ensures
        r@ == hmac_of(key@, msg@),
        r@.len() == 32,
{
    let mut mac = <hmac::Hmac<sha2::Sha256> as hmac::KeyInit>::new_from_slice(key)
        .expect("hmac accepts keys of any length");
    hmac::Mac::update(&mut mac, msg);
    hmac::Mac::finalize(mac).into_bytes().to_vec()
}

/// Relies on openssl's `decrypt_aead` with AES-128-GCM and empty associated
/// data: it returns the plaintext exactly when the given tag equals the tag
/// GCM computes over the ciphertext, and fails otherwise. openssl hands the
/// buffer length to C as an `int`, so ciphertexts above `i32::MAX` bytes are
/// excluded here.
#[verifier::external_body]
pub(crate) fn aead_open(key: &[u8], iv: &[u8], ct: &[u8], tag: &[u8]) -> (r: Option<Vec<u8>>)
    requires
        key@.len() == 16,
        iv@.len() == 12,
        tag@.len() == 16,
        ct@.len() <= 0x7fff_ffff,
    ensures
        r is Some <==> tag@ == gcm_tag_of(key@, iv@, ct@),
        r matches Some(v) ==> v@ == gcm_plain_of(key@, iv@, ct@) && v@.len() == ct@.len(),
{
    match openssl::symm::decrypt_aead(
        openssl::symm::Cipher::aes_128_gcm(),
        key,
        Some(iv),
        &[],
        ct,
        tag,
    ) {
        Ok(v) => Some(v),
        Err(_) => None,
    }
}

/// Relies on openssl's `Crypter` in decryption mode: for GCM, `update` alone
/// yields the whole keystream-decrypted plaintext, no tag being checked.
/// openssl hands the buffer length to C as an `int`, so ciphertexts above
/// `i32::MAX` bytes are excluded here.
#[verifier::external_body]
pub(crate) fn gcm_decrypt_unchecked(key: &[u8], iv: &[u8], ct: &[u8]) -> (r: Vec<u8>)
    requires
        key@.len() == 16,
        iv@.len() == 12,
        ct@.len() <= 0x7fff_ffff,
    ensures
        r@ == gcm_plain_of(key@, iv@, ct@),
        r@.len() == ct@.len(),
{
    let mut c = openssl::symm::Crypter::new(
        openssl::symm::Cipher::aes_128_gcm(),
        openssl::symm::Mode::Decrypt,
        key,
        Some(iv),
    )
    .expect("cipher accepts this key and iv size");
    let mut out = vec![0u8; ct.len() + 16];
    let n = c.update(ct, &mut out).expect("gcm update cannot fail on whole input");
    out.truncate(n);
    out
}

/// Relies on openssl's `encrypt_aead` with AES-128-GCM and empty associated
/// data: encryption is length-preserving, decryption under the same key and
/// nonce inverts it, and the returned 16-byte tag is the tag GCM computes
/// over the produced ciphertext. openssl hands the buffer length to C as an
/// `int`, so plaintexts above `i32::MAX` bytes are excluded here.
#[verifier::external_body]
pub(crate) fn gcm_encrypt(key: &[u8], iv: &[u8], plain: &[u8]) -> (r: (Vec<u8>, Vec<u8>))
    requires
        key@.len() == 16,
        iv@.len() == 12,
        plain@.len() <= 0x7fff_ffff,
    ensures
        r.0@.len() == plain@.len(),
        gcm_plain_of(key@, iv@, r.0@) == plain@,
        r.1@ == gcm_tag_of(key@, iv@, r.0@),
        r.1@.len() == 16,
{
    let mut tag = vec![0u8; 16];
    let ct = openssl::symm::encrypt_aead(
        openssl::symm::Cipher::aes_128_gcm(),
        key,
        Some(iv),
        &[],
        plain,
        &mut tag,
    )
    .expect("cipher accepts this key and iv size");
    (ct, tag)
}

} // verus!
