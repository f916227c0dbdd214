use send_download::download::round_trip_recovers;
use send_download::writer::{EncryptedFileWriter, ProgressWriter};

fn gcm_seal(key: &[u8], iv: &[u8], plain: &[u8]) -> (Vec<u8>, Vec<u8>) {
    let mut tag = vec![0u8; 16];
    let ct = openssl::symm::encrypt_aead(
        openssl::symm::Cipher::aes_128_gcm(),
        key,
        Some(iv),
        &[],
        plain,
        &mut tag,
    )
    .unwrap();
    (ct, tag)
}

const KEY: [u8; 16] = [
    0x01, 0x02, 0x03, 0x04, 0x05, 0x06, 0x07, 0x08, 0x09, 0x0a, 0x0b, 0x0c, 0x0d, 0x0e, 0x0f,
    0x10,
];
const IV: [u8; 12] = [0xa0, 0xa1, 0xa2, 0xa3, 0xa4, 0xa5, 0xa6, 0xa7, 0xa8, 0xa9, 0xaa, 0xab];

#[test]
fn ten_byte_file_in_two_unequal_chunks_verifies() {
    let plain = b"0123456789";
    let (ct, tag) = gcm_seal(&KEY, &IV, plain);
    assert_eq!(ct.len(), 10);
    let mut stream = ct.clone();
    stream.extend_from_slice(&tag);

    let mut w = EncryptedFileWriter::new(26, &KEY, &IV).unwrap();
    w.write_chunk(&stream[..3]).unwrap();
    w.write_chunk(&stream[3..]).unwrap();
    assert_eq!(w.verified(), None);
    w.finish();
    assert_eq!(w.verified(), Some(true));
    assert_eq!(w.output().as_slice(), plain.as_slice());
}

#[test]
fn corrupted_tag_yields_same_plaintext_unverified() {
    let plain = b"0123456789";
    let (ct, tag) = gcm_seal(&KEY, &IV, plain);
    let mut stream = ct.clone();
    stream.extend_from_slice(&tag);
    *stream.last_mut().unwrap() ^= 0x80;

    let mut w = EncryptedFileWriter::new(26, &KEY, &IV).unwrap();
    w.write_chunk(&stream[..3]).unwrap();
    w.write_chunk(&stream[3..]).unwrap();
    w.finish();
    assert_eq!(w.verified(), Some(false));
    assert_eq!(w.output().as_slice(), plain.as_slice());
}

#[test]
fn overlong_write_is_rejected() {
    let mut w = EncryptedFileWriter::new(16, &KEY, &IV).unwrap();
    assert!(w.write_chunk(&[0u8; 17]).is_err());
    assert_eq!(w.received_len(), 0);
    w.write_chunk(&[0u8; 16]).unwrap();
    assert_eq!(w.received_len(), 16);
}

#[test]
fn short_declared_length_is_rejected() {
    assert!(EncryptedFileWriter::new(15, &KEY, &IV).is_err());
}

#[test]
fn oversize_declared_length_is_rejected() {
    // The ciphertext part may not exceed what the cipher accepts in one call.
    assert!(EncryptedFileWriter::new(0x7fff_ffff + 17, &KEY, &IV).is_err());
}

#[test]
fn progress_writer_counts_chunk_sums() {
    let plain = b"0123456789";
    let (ct, tag) = gcm_seal(&KEY, &IV, plain);
    let mut stream = ct.clone();
    stream.extend_from_slice(&tag);

    let inner = EncryptedFileWriter::new(26, &KEY, &IV).unwrap();
    let mut w = ProgressWriter::new(inner);
    assert_eq!(w.progress(), (0, 26));
    w.write(&stream[..3]).unwrap();
    assert_eq!(w.progress(), (3, 26));
    w.write(&stream[3..8]).unwrap();
    assert_eq!(w.progress(), (8, 26));
    w.write(&stream[8..]).unwrap();
    assert_eq!(w.progress(), (26, 26));
    w.finish();
    assert_eq!(w.verified(), Some(true));
    assert_eq!(w.into_output(), plain.to_vec());
}

#[test]
fn round_trip_law_on_concrete_values() {
    let (out, ok) = round_trip_recovers(b"some secret", &IV, b"ten bytes!");
    assert!(ok);
    assert_eq!(out, b"ten bytes!".to_vec());
}
