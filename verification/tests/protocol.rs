use base64::Engine;
use hmac::{Hmac, KeyInit, Mac};
use send_download::download::{Download, DownloadError};
use send_download::nonce::{AuthError, MetaError};
use sha2::Sha256;

fn b64(data: &[u8]) -> String {
    base64::engine::general_purpose::URL_SAFE_NO_PAD.encode(data)
}

fn hkdf_key(secret: &[u8], info: &[u8], n: usize) -> Vec<u8> {
    let mut out = vec![0u8; n];
    hkdf::Hkdf::<Sha256>::new(None, secret)
        .expand(info, &mut out)
        .unwrap();
    out
}

fn hmac_sha256(key: &[u8], msg: &[u8]) -> Vec<u8> {
    let mut mac = Hmac::<Sha256>::new_from_slice(key).unwrap();
    mac.update(msg);
    mac.finalize().into_bytes().to_vec()
}

fn gcm_seal(key: &[u8], iv: &[u8], plain: &[u8]) -> (Vec<u8>, Vec<u8>) {
    let mut tag = vec![0u8; 16];
    let ct = openssl::symm::encrypt_aead(
        openssl::symm::Cipher::aes_128_gcm(),
        key,
        Some(iv),
        &[],
        plain,
        &mut tag,
    )
    .unwrap();
    (ct, tag)
}

fn auth_header(auth_key: &[u8], nonce: &[u8]) -> Vec<u8> {
    let mut v = b"send-v1 ".to_vec();
    v.extend_from_slice(b64(&hmac_sha256(auth_key, nonce)).as_bytes());
    v
}

#[test]
fn full_protocol_succeeds_and_recovers_plaintext() {
    let secret = b"a shared link secret";
    let auth_key = hkdf_key(secret, b"authentication", 64);
    let meta_key = hkdf_key(secret, b"metadata", 16);
    let file_key = hkdf_key(secret, b"encryption", 16);

    let mut d = Download::new(secret);

    // Stage 1: the server issues the authentication nonce.
    let n1: Vec<u8> = (0u8..12).collect();
    let h1 = [b"send-v1 ".as_slice(), b64(&n1).as_bytes()].concat();
    let hv1 = d.handle_auth_response(true, Some(&h1)).unwrap();
    assert_eq!(hv1, auth_header(&auth_key, &n1));

    // Stage 2: the metadata response carries the second nonce and the record.
    let iv: Vec<u8> = (100u8..112).collect();
    let record = format!(
        "{{\"iv\":\"{}\",\"name\":\"file.bin\",\"type\":\"application/octet-stream\"}}",
        b64(&iv)
    );
    let (mct, mtag) = gcm_seal(&meta_key, &[0u8; 12], record.as_bytes());
    let envelope = [mct.as_slice(), mtag.as_slice()].concat();
    let body = format!("{{\"metadata\":\"{}\"}}", b64(&envelope));
    let n2: Vec<u8> = (50u8..62).collect();
    let h2 = [b"send-v1 ".as_slice(), b64(&n2).as_bytes()].concat();
    let hv2 = d.handle_meta_response(true, Some(&h2), body.as_bytes()).unwrap();
    assert_eq!(hv2, auth_header(&auth_key, &n2));

    // Stage 3: the body stream decrypts and verifies.
    let content = b"the quick brown fox jumps over the lazy dog";
    let (ct, tag) = gcm_seal(&file_key, &iv, content);
    let stream = [ct.as_slice(), tag.as_slice()].concat();
    let mut w = d.create_file_writer(stream.len()).unwrap();
    for chunk in stream.chunks(7) {
        w.write(chunk).unwrap();
    }
    assert_eq!(w.progress(), (stream.len() as u64, stream.len() as u64));
    let out = d.complete(w).unwrap();
    assert_eq!(out, content.to_vec());
}

#[test]
fn corrupted_tag_makes_orchestrator_fail() {
    let secret = b"another secret";
    let meta_key = hkdf_key(secret, b"metadata", 16);
    let file_key = hkdf_key(secret, b"encryption", 16);

    let mut d = Download::new(secret);
    let n1 = b"nonce-one".to_vec();
    let h1 = [b"send-v1 ".as_slice(), b64(&n1).as_bytes()].concat();
    d.handle_auth_response(true, Some(&h1)).unwrap();

    let iv = [9u8; 12];
    let record = format!(
        "{{\"iv\":\"{}\",\"name\":\"n\",\"type\":\"t\"}}",
        b64(&iv)
    );
    let (mct, mtag) = gcm_seal(&meta_key, &[0u8; 12], record.as_bytes());
    let envelope = [mct.as_slice(), mtag.as_slice()].concat();
    let body = format!("{{\"metadata\":\"{}\"}}", b64(&envelope));
    let h2 = [b"send-v1 ".as_slice(), b64(b"nonce-two").as_bytes()].concat();
    d.handle_meta_response(true, Some(&h2), body.as_bytes()).unwrap();

    let content = b"payload bytes";
    let (ct, mut tag) = gcm_seal(&file_key, &iv, content);
    *tag.last_mut().unwrap() ^= 0x01;
    let stream = [ct.as_slice(), tag.as_slice()].concat();
    let mut w = d.create_file_writer(stream.len()).unwrap();
    w.write(&stream).unwrap();
    let r = d.complete(w);
    assert_eq!(r, Err(DownloadError::EncryptionError));
}

#[test]
fn file_writer_before_iv_fails_deterministically() {
    let d = Download::new(b"s");
    assert!(matches!(
        d.create_file_writer(100),
        Err(DownloadError::EncryptionError)
    ));
}

#[test]
fn bad_status_fails_auth_stage() {
    let mut d = Download::new(b"s");
    let r = d.handle_auth_response(false, None);
    assert_eq!(r, Err(DownloadError::AuthError(AuthError::NonceReqStatusErr)));
}

#[test]
fn body_response_head_is_classified() {
    let secret = b"another secret";
    let meta_key = hkdf_key(secret, b"metadata", 16);

    let mut d = Download::new(secret);
    let h1 = [b"send-v1 ".as_slice(), b64(b"n1").as_bytes()].concat();
    d.handle_auth_response(true, Some(&h1)).unwrap();
    let iv = [9u8; 12];
    let record = format!("{{\"iv\":\"{}\",\"name\":\"n\",\"type\":\"t\"}}", b64(&iv));
    let (mct, mtag) = gcm_seal(&meta_key, &[0u8; 12], record.as_bytes());
    let envelope = [mct.as_slice(), mtag.as_slice()].concat();
    let body = format!("{{\"metadata\":\"{}\"}}", b64(&envelope));
    let h2 = [b"send-v1 ".as_slice(), b64(b"n2").as_bytes()].concat();
    d.handle_meta_response(true, Some(&h2), body.as_bytes()).unwrap();

    assert_eq!(
        d.handle_body_response(true, None),
        Err(DownloadError::DecodeError)
    );
}

#[test]
fn transport_failure_is_classified_by_stage() {
    let mut d = Download::new(b"s");
    assert_eq!(
        d.fail_request(),
        DownloadError::AuthError(AuthError::NonceReqFail)
    );

    let mut d = Download::new(b"s");
    let n1 = b"nonce".to_vec();
    let h1 = [b"send-v1 ".as_slice(), b64(&n1).as_bytes()].concat();
    d.handle_auth_response(true, Some(&h1)).unwrap();
    assert_eq!(
        d.fail_request(),
        DownloadError::MetaError(MetaError::NonceReqFail)
    );
}
