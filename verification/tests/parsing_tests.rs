use base64::Engine;
use send_download::json::json_field;
use send_download::keys::KeySet;
use send_download::metadata::parse_record;
use send_download::nonce::{parse_nonce_header, AuthError};
use send_download::progress::ProgressReporter;

fn b64(data: &[u8]) -> String {
    base64::engine::general_purpose::URL_SAFE_NO_PAD.encode(data)
}

#[test]
fn nonce_header_decodes_second_token() {
    let nonce = b"a fresh nonce";
    let header = [b"send-v1 ".as_slice(), b64(nonce).as_bytes()].concat();
    assert_eq!(parse_nonce_header(Some(&header)), Ok(nonce.to_vec()));
}

#[test]
fn absent_header_is_missing() {
    assert_eq!(parse_nonce_header(None), Err(AuthError::MissingNonceHeader));
}

#[test]
fn scheme_without_nonce_is_missing() {
    let header = b"send-v1".to_vec();
    assert_eq!(
        parse_nonce_header(Some(&header)),
        Err(AuthError::MissingNonceHeader)
    );
    let trailing = b"send-v1 ".to_vec();
    assert_eq!(
        parse_nonce_header(Some(&trailing)),
        Err(AuthError::MissingNonceHeader)
    );
}

#[test]
fn consecutive_spaces_yield_an_empty_second_token() {
    // Every space separates tokens, so the second token here is empty and
    // decodes to an empty nonce, as the splitting rule states.
    let header = b"send-v1  x".to_vec();
    assert_eq!(parse_nonce_header(Some(&header)), Ok(Vec::new()));
}

#[test]
fn empty_header_is_empty() {
    let header = Vec::new();
    assert_eq!(
        parse_nonce_header(Some(&header)),
        Err(AuthError::EmptyNonceHeader)
    );
}

#[test]
fn non_utf8_header_is_malformed_header() {
    let header = vec![0xffu8, 0xfe, 0x20, 0x41];
    assert_eq!(
        parse_nonce_header(Some(&header)),
        Err(AuthError::MalformedNonceHeader)
    );
}

#[test]
fn non_base64_token_is_malformed_nonce() {
    let header = b"send-v1 !!!not-base64!!!".to_vec();
    assert_eq!(
        parse_nonce_header(Some(&header)),
        Err(AuthError::MalformedNonce)
    );
}

#[test]
fn json_field_finds_value() {
    let body = b"{\"metadata\":\"abc-123_XYZ\"}";
    assert_eq!(json_field(body, b"metadata"), Some(b"abc-123_XYZ".to_vec()));
}

#[test]
fn json_field_absent_key_is_none() {
    let body = b"{\"other\":\"abc\"}";
    assert_eq!(json_field(body, b"metadata"), None);
}

#[test]
fn json_field_tolerates_whitespace_around_colon() {
    let body = b"{ \"metadata\" : \"abc\" }";
    assert_eq!(json_field(body, b"metadata"), Some(b"abc".to_vec()));
}

#[test]
fn json_nat_field_reads_a_count() {
    let body = b"{\"name\":\"n\",\"size\": 123456,\"type\":\"t\"}";
    assert_eq!(send_download::json::json_nat_field(body, b"size"), Some(123456));
    assert_eq!(send_download::json::json_nat_field(body, b"missing"), None);
}

#[test]
fn metadata_record_fields_are_extracted() {
    let iv = [7u8; 12];
    let record = format!(
        "{{\"iv\":\"{}\",\"name\":\"file.bin\",\"type\":\"text/plain\"}}",
        b64(&iv)
    );
    let m = parse_record(record.as_bytes()).unwrap();
    assert_eq!(m.iv().as_slice(), iv.as_slice());
    assert_eq!(m.name().as_slice(), b"file.bin".as_slice());
    assert_eq!(m.mime().as_slice(), b"text/plain".as_slice());
    assert_eq!(m.size(), None);
}

#[test]
fn metadata_record_size_is_recovered() {
    let iv = [7u8; 12];
    let record = format!(
        "{{\"iv\":\"{}\",\"name\":\"file.bin\",\"size\":1048576,\"type\":\"text/plain\"}}",
        b64(&iv)
    );
    let m = parse_record(record.as_bytes()).unwrap();
    assert_eq!(m.size(), Some(1048576));
}

#[test]
fn metadata_record_with_short_iv_is_malformed() {
    let record = format!("{{\"iv\":\"{}\",\"name\":\"n\",\"type\":\"t\"}}", b64(&[1u8; 4]));
    assert!(parse_record(record.as_bytes()).is_err());
}

#[test]
fn keyset_iv_is_unset_until_provided() {
    let mut ks = KeySet::derive(b"secret");
    assert!(ks.iv().is_none());
    ks.set_iv(vec![3u8; 12]);
    assert_eq!(ks.iv().unwrap().as_slice(), [3u8; 12].as_slice());
}

#[test]
fn derived_keys_match_hkdf() {
    let ks = KeySet::derive(b"secret");
    let mut auth = vec![0u8; 64];
    hkdf::Hkdf::<sha2::Sha256>::new(None, b"secret")
        .expand(b"authentication", &mut auth)
        .unwrap();
    assert_eq!(ks.auth_key().as_slice(), auth.as_slice());
    assert_eq!(ks.meta_key().len(), 16);
    assert_eq!(ks.file_key().len(), 16);
}

#[test]
fn progress_reporter_counts_and_finishes() {
    let mut p = ProgressReporter::new();
    p.start(100);
    p.add(30);
    p.add(20);
    p.add(50);
    assert_eq!(p.transferred(), 100);
    assert_eq!(p.total(), 100);
    assert!(!p.finished());
    p.finish();
    assert!(p.finished());
    assert_eq!(p.transferred(), 100);
}
