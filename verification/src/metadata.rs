//! The encrypted metadata record: the envelope field fetched from the server,
//! its authenticated decryption under the metadata key, and the fields of the
//! decrypted record — IV, name and MIME type, plus the byte size where the
//! record declares one.

use vstd::prelude::*;
use crate::b64::{b64_decode, b64_of};
use crate::bytes::copy_range;
use crate::crypto::{aead_open, gcm_plain_of, gcm_tag_of};
use crate::json::{json_field, json_nat_field, spec_json_field, spec_json_nat_field};
use crate::keys::KeySet;
use crate::nonce::MetaError;

verus! {

/// The JSON key of the envelope field: `metadata`.
pub open spec fn spec_key_envelope() -> Seq<u8> {
    seq![109u8, 101u8, 116u8, 97u8, 100u8, 97u8, 116u8, 97u8]
}

/// The JSON key of the IV field: `iv`.
pub open spec fn spec_key_iv() -> Seq<u8> {
    seq![105u8, 118u8]
}

/// The JSON key of the name field: `name`.
pub open spec fn spec_key_name() -> Seq<u8> {
    seq![110u8, 97u8, 109u8, 101u8]
}

/// The JSON key of the MIME type field: `type`.
pub open spec fn spec_key_type() -> Seq<u8> {
    seq![116u8, 121u8, 112u8, 101u8]
}

/// The JSON key of the size field: `size`.
pub open spec fn spec_key_size() -> Seq<u8> {
    seq![115u8, 105u8, 122u8, 101u8]
}

/// The protocol-fixed all-zero IV reserved for the metadata decryption; the
/// resource IV itself only becomes known from the decrypted record.
pub open spec fn spec_zero_iv() -> Seq<u8> {
    seq![0u8, 0u8, 0u8, 0u8, 0u8, 0u8, 0u8, 0u8, 0u8, 0u8, 0u8, 0u8]
}

fn key_envelope() -> (r: Vec<u8>)
    ensures
        r@ == spec_key_envelope(),
{
    let mut v: Vec<u8> = Vec::new();
    v.push(109u8);
    v.push(101u8);
    v.push(116u8);
    v.push(97u8);
    v.push(100u8);
    v.push(97u8);
    v.push(116u8);
    v.push(97u8);
    assert(v@ =~= spec_key_envelope());
    v
}

fn key_iv() -> (r: Vec<u8>)
    ensures
        r@ == spec_key_iv(),
{
    let mut v: Vec<u8> = Vec::new();
    v.push(105u8);
    v.push(118u8);
    assert(v@ =~= spec_key_iv());
    v
}

fn key_name() -> (r: Vec<u8>)
    ensures
        r@ == spec_key_name(),
{
    let mut v: Vec<u8> = Vec::new();
    v.push(110u8);
    v.push(97u8);
    v.push(109u8);
    v.push(101u8);
    assert(v@ =~= spec_key_name());
    v
}

fn key_type() -> (r: Vec<u8>)
    ensures
        r@ == spec_key_type(),
{
    let mut v: Vec<u8> = Vec::new();
    v.push(116u8);
    v.push(121u8);
    v.push(112u8);
    v.push(101u8);
    assert(v@ =~= spec_key_type());
    v
}

fn key_size() -> (r: Vec<u8>)
    ensures
        r@ == spec_key_size(),
{
    let mut v: Vec<u8> = Vec::new();
    v.push(115u8);
    v.push(105u8);
    v.push(122u8);
    v.push(101u8);
    assert(v@ =~= spec_key_size());
    v
}

pub fn zero_iv() -> (r: Vec<u8>)
    ensures
        r@ == spec_zero_iv(),
        r@.len() == 12,
{
    let mut v: Vec<u8> = Vec::new();
    let mut k: usize = 0;
    while k < 12
        invariant
            0 <= k <= 12,
            v@.len() == k,
            forall|i: int| 0 <= i < k ==> v@[i] == 0u8,
        decreases 12 - k,
    {
        v.push(0u8);
        k = k + 1;
    }
    assert(v@ =~= spec_zero_iv());
    v
}

/// The decrypted metadata fields, as mathematical values.
pub ghost struct MetadataView {
    pub iv: Seq<u8>,
    pub name: Seq<u8>,
    pub mime: Seq<u8>,
    pub size: Option<nat>,
}

/// The decrypted resource metadata: the 96-bit IV, the file name, the MIME
/// type, and the byte size where the record carries one (records without it
/// leave the exact length to the declared body length). Immutable once
/// decrypted.
pub struct Metadata {
    iv: Vec<u8>,
    name: Vec<u8>,
    mime: Vec<u8>,
    size: Option<u64>,
}

impl Metadata {
    /// The fields this record holds.
    pub closed spec fn mview(&self) -> MetadataView {
        MetadataView {
            iv: self.iv@,
            name: self.name@,
            mime: self.mime@,
            size: match self.size {
                Some(n) => Some(n as nat),
                None => None,
            },
        }
    }

    /// The IV is 96 bits.
    pub open spec fn wf(&self) -> bool {
        self.mview().iv.len() == 12
    }

    /// The resource IV carried by the record.
    pub fn iv(&self) -> (r: &Vec<u8>)
        ensures
            r@ == self.mview().iv,
    {
        &self.iv
    }

    /// The file name carried by the record, as raw bytes.
    pub fn name(&self) -> (r: &Vec<u8>)
        ensures
            r@ == self.mview().name,
    {
        &self.name
    }

    /// The MIME type carried by the record, as raw bytes.
    pub fn mime(&self) -> (r: &Vec<u8>)
        ensures
            r@ == self.mview().mime,
    {
        &self.mime
    }

    /// The plaintext byte size the record declares, if it carries one.
    pub fn size(&self) -> (r: Option<u64>)
        ensures
            match r {
                Some(v) => self.mview().size == Some(v as nat),
                None => self.mview().size is None,
            },
    {
        self.size
    }
}

/// What the metadata response body yields: the `metadata` field of the JSON
/// envelope, or the error for a body without one.
pub open spec fn spec_envelope(body: Seq<u8>) -> Result<Seq<u8>, MetaError> {
    match spec_json_field(body, spec_key_envelope()) {
        Some(v) => Ok(v),
        None => Err(MetaError::MalformedMetadata),
    }
}

/// What decrypting an envelope field under a metadata key yields: the base64
/// decoding must succeed, hold at least the 16-byte trailing tag and no more
/// ciphertext than the cipher accepts in one call, the tag must be the one
/// GCM computes over the ciphertext under the fixed zero IV, and the
/// plaintext record must carry `iv` (96 bits, base64), `name` and `type`
/// fields.
pub open spec fn spec_decrypt_metadata(meta: Seq<u8>, meta_key: Seq<u8>) -> Result<MetadataView, MetaError> {
    if !(exists|d: Seq<u8>| meta == #[trigger] b64_of(d)) {
        Err(MetaError::MalformedMetadata)
    } else {
        let raw = choose|d: Seq<u8>| meta == #[trigger] b64_of(d);
        if raw.len() < 16 || raw.len() - 16 > 0x7fff_ffff {
            Err(MetaError::MalformedMetadata)
        } else {
            let ct = raw.take(raw.len() - 16);
            let tag = raw.skip(raw.len() - 16);
            if tag != gcm_tag_of(meta_key, spec_zero_iv(), ct) {
                Err(MetaError::DecryptMetadataFail)
            } else {
                spec_parse_record(gcm_plain_of(meta_key, spec_zero_iv(), ct))
            }
        }
    }
}

/// What parsing a decrypted metadata record yields: the `iv`, `name` and
/// `type` fields are required, the `size` count is carried when present.
pub open spec fn spec_parse_record(plain: Seq<u8>) -> Result<MetadataView, MetaError> {
    match (
        spec_json_field(plain, spec_key_iv()),
        spec_json_field(plain, spec_key_name()),
        spec_json_field(plain, spec_key_type()),
    ) {
        (Some(ivb), Some(name), Some(mime)) => if exists|d: Seq<u8>| ivb == #[trigger] b64_of(d) {
            let iv = choose|d: Seq<u8>| ivb == #[trigger] b64_of(d);
            if iv.len() == 12 {
                Ok(MetadataView { iv, name, mime, size: spec_json_nat_field(plain, spec_key_size()) })
            } else {
                Err(MetaError::MalformedMetadata)
            }
        } else {
            Err(MetaError::MalformedMetadata)
        },
        _ => Err(MetaError::MalformedMetadata),
    }
}

/// The metadata response from the server: the base64 envelope field holding
/// `ciphertext || tag` of the encrypted metadata record.
pub struct MetadataResponse {
    meta: Vec<u8>,
}

impl MetadataResponse {
    /// The envelope field, still encoded.
    pub closed spec fn meta_view(&self) -> Seq<u8> {
        self.meta@
    }

    /// Read the envelope field out of a metadata response body.
    pub fn from_body(body: &[u8]) -> (r: Result<MetadataResponse, MetaError>)
        ensures
            match (r, spec_envelope(body@)) {
                (Ok(m), Ok(v)) => m.meta_view() == v,
                (Err(e), Err(f)) => e == f,
                _ => false,
            },
    {
        let key = key_envelope();
        match json_field(body, key.as_slice()) {
            Some(v) => Ok(MetadataResponse { meta: v }),
            None => Err(MetaError::MalformedMetadata),
        }
    }

    /// Decrypt and parse the metadata record, as `spec_decrypt_metadata`
    /// describes it: the tag is checked under the metadata key and the
    /// protocol-fixed zero IV, and a record without the expected fields, or
    /// with an IV that is not 96 bits, is malformed.
    pub fn decrypt_metadata(&self, key_set: &KeySet) -> (r: Result<Metadata, MetaError>)
        requires
            key_set.wf(),
        ensures
            match (r, spec_decrypt_metadata(self.meta_view(), key_set.kview().meta)) {
                (Ok(m), Ok(v)) => m.mview() == v && m.wf(),
                (Err(e), Err(f)) => e == f,
                _ => false,
            },
    {
        let raw = match b64_decode(self.meta.as_slice()) {
            Some(raw) => {
                proof {
                    let c = choose|d: Seq<u8>| self.meta@ == #[trigger] b64_of(d);
                    assert(self.meta@ == b64_of(raw@));
                    assert(self.meta@ == b64_of(c));
                    assert(raw@ == c);
                }
                raw
            }
            None => {
                proof {
                    if exists|d: Seq<u8>| self.meta@ == #[trigger] b64_of(d) {
                        let c = choose|d: Seq<u8>| self.meta@ == #[trigger] b64_of(d);
                        assert(self.meta@ == b64_of(c));
                        assert(false);
                    }
                }
                return Err(MetaError::MalformedMetadata);
            }
        };
        if raw.len() < 16 {
            return Err(MetaError::MalformedMetadata);
        }
        if raw.len() - 16 > 0x7fff_ffff {
            return Err(MetaError::MalformedMetadata);
        }
        let split = raw.len() - 16;
        let ct = copy_range(raw.as_slice(), 0, split);
        let tag = copy_range(raw.as_slice(), split, raw.len());
        proof {
            assert(ct@ =~= raw@.take(raw@.len() - 16));
            assert(tag@ =~= raw@.skip(raw@.len() - 16));
        }
        let iv0 = zero_iv();
        match aead_open(key_set.meta_key().as_slice(), iv0.as_slice(), ct.as_slice(), tag.as_slice()) {
            None => Err(MetaError::DecryptMetadataFail),
            Some(plain) => parse_record(plain.as_slice()),
        }
    }
}

/// Parse a decrypted metadata record, as `spec_parse_record` describes it.
pub fn parse_record(plain: &[u8]) -> (r: Result<Metadata, MetaError>)
    ensures
        match (r, spec_parse_record(plain@)) {
            (Ok(m), Ok(v)) => m.mview() == v && m.wf(),
            (Err(e), Err(f)) => e == f,
            _ => false,
        },
{
    let kiv = key_iv();
    let kname = key_name();
    let ktype = key_type();
    let ksize = key_size();
    let ivb = json_field(plain, kiv.as_slice());
    let name = json_field(plain, kname.as_slice());
    let mime = json_field(plain, ktype.as_slice());
    let size = json_nat_field(plain, ksize.as_slice());
    match (ivb, name, mime) {
        (Some(ivb), Some(name), Some(mime)) => {
            match b64_decode(ivb.as_slice()) {
                Some(iv) => {
                    proof {
                        let c = choose|d: Seq<u8>| ivb@ == #[trigger] b64_of(d);
                        assert(ivb@ == b64_of(iv@));
                        assert(ivb@ == b64_of(c));
                        assert(iv@ == c);
                    }
                    if iv.len() == 12 {
                        Ok(Metadata { iv, name, mime, size })
                    } else {
                        Err(MetaError::MalformedMetadata)
                    }
                }
                None => {
                    proof {
                        if exists|d: Seq<u8>| ivb@ == #[trigger] b64_of(d) {
                            let c = choose|d: Seq<u8>| ivb@ == #[trigger] b64_of(d);
                            assert(ivb@ == b64_of(c));
                            assert(false);
                        }
                    }
                    Err(MetaError::MalformedMetadata)
                }
            }
        }
        _ => Err(MetaError::MalformedMetadata),
    }
}

} // verus!
