//! The download orchestrator: a linear state machine that derives the key
//! set, turns each server response into the next signed request header, and
//! only releases the decrypted body once its trailing tag verified.
//!
//! The caller performs the HTTP requests and hands back plain response
//! values; every decision between them is made — and verified — here.

use vstd::prelude::*;
use crate::b64::{b64_encode, b64_of};
use crate::bytes::push_all;
use crate::crypto::{gcm_encrypt, gcm_plain_of, gcm_tag_of, hkdf_of, hmac_of, hmac_sign};
use crate::keys::{spec_info_auth, spec_info_file, spec_info_meta, KeySet, KeySetView};
use crate::metadata::{spec_decrypt_metadata, spec_envelope, Metadata, MetadataResponse, MetadataView};
use crate::nonce::{
    meta_error_of, parse_nonce_header, spec_meta_of_auth, spec_parse_nonce, AuthError, MetaError,
};
use crate::writer::{EncryptedFileWriter, ProgressWriter};

verus! {

/// Errors that may occur in the download action.
#[derive(Debug, Clone, Copy, PartialEq, Eq, Structural)]
pub enum DownloadError {
    /// An authentication related error.
    AuthError(AuthError),
    /// A metadata related error.
    MetaError(MetaError),
    /// An error occurred while opening the file for writing.
    FileOpenError,
    /// The given file is not an existing file.
    NotAFile,
    /// An error occurred while opening or reading a file.
    FileError,
    /// An error occurred in the decrypt-verify stream: a length or cipher
    /// precondition was broken, or the trailing tag did not verify.
    EncryptionError,
    /// An error occurred while processing the request.
    RequestError,
    /// An error occurred while decoding the response data.
    DecodeError,
}

/// The stages of one download, entered strictly left to right.
#[derive(Debug, Clone, Copy, PartialEq, Eq, Structural)]
pub enum Stage {
    /// Keys derived, nothing fetched.
    Init,
    /// The authentication nonce was parsed and consumed.
    AuthDone,
    /// Metadata decrypted, the key set completed with its IV.
    MetaDone,
    /// The body stream verified; terminal success.
    Done,
    /// A stage failed; terminal.
    Failed,
}

/// The scheme tag and separating space of an authorization value: `send-v1 `.
pub open spec fn spec_scheme_prefix() -> Seq<u8> {
    seq![115u8, 101u8, 110u8, 100u8, 45u8, 118u8, 49u8, 32u8]
}

/// The authorization value answering a challenge nonce under an
/// authentication key: `send-v1 <base64 HMAC-SHA256 of the nonce>`.
pub open spec fn spec_auth_header(auth_key: Seq<u8>, nonce: Seq<u8>) -> Seq<u8> {
    spec_scheme_prefix() + b64_of(hmac_of(auth_key, nonce))
}

/// The base64-encoded signature over a nonce.
pub fn signature_encoded(key: &[u8], nonce: &[u8]) -> (r: Vec<u8>)
    ensures
        r@ == b64_of(hmac_of(key@, nonce@)),
{
    let sig = hmac_sign(key, nonce);
    b64_encode(sig.as_slice())
}

/// The full authorization value answering a challenge nonce.
pub fn auth_header_value(key: &[u8], nonce: &[u8]) -> (r: Vec<u8>)
    ensures
        r@ == spec_auth_header(key@, nonce@),
{
    let mut v: Vec<u8> = Vec::new();
    v.push(115u8);
    v.push(101u8);
    v.push(110u8);
    v.push(100u8);
    v.push(45u8);
    v.push(118u8);
    v.push(49u8);
    v.push(32u8);
    assert(v@ =~= spec_scheme_prefix());
    let sig = signature_encoded(key, nonce);
    push_all(&mut v, sig.as_slice());
    assert(v@ =~= spec_auth_header(key@, nonce@));
    v
}

/// What the metadata stage yields from the response pieces: the second-stage
/// nonce and the decrypted metadata, or the first error on the way.
pub open spec fn spec_meta_outcome(
    meta_key: Seq<u8>,
    hs: Option<Seq<u8>>,
    body: Seq<u8>,
) -> Result<(Seq<u8>, MetadataView), MetaError> {
    match spec_parse_nonce(hs) {
        Err(e) => Err(spec_meta_of_auth(e)),
        Ok(nonce) => match spec_envelope(body) {
            Err(e) => Err(e),
            Ok(env) => match spec_decrypt_metadata(env, meta_key) {
                Err(e) => Err(e),
                Ok(mv) => Ok((nonce, mv)),
            },
        },
    }
}

/// A download action for one remote file.
pub struct Download {
    key: KeySet,
    stage: Stage,
    auth_nonce: Vec<u8>,
    meta_nonce: Vec<u8>,
    meta: Option<Metadata>,
}

impl Download {
    /// The key set held by this download.
    pub closed spec fn key_spec(&self) -> KeySet {
        self.key
    }

    /// The current stage.
    pub closed spec fn stage_spec(&self) -> Stage {
        self.stage
    }

    /// The authentication nonce consumed so far.
    pub closed spec fn auth_nonce_view(&self) -> Seq<u8> {
        self.auth_nonce@
    }

    /// The metadata nonce consumed so far.
    pub closed spec fn meta_nonce_view(&self) -> Seq<u8> {
        self.meta_nonce@
    }

    /// The decrypted metadata, once the metadata stage succeeded.
    pub closed spec fn meta_view(&self) -> Option<MetadataView> {
        match self.meta {
            Some(m) => Some(m.mview()),
            None => None,
        }
    }

    pub open spec fn wf(&self) -> bool {
        self.key_spec().wf()
    }

    /// Construct a new download action: derive the key set from the shared
    /// secret and start at the initial stage.
    pub fn new(secret: &[u8]) -> (r: Download)
        ensures
            r.wf(),
            r.stage_spec() == Stage::Init,
            r.key_spec().kview().auth == hkdf_of(secret@, spec_info_auth(), 64),
            r.key_spec().kview().meta == hkdf_of(secret@, spec_info_meta(), 16),
            r.key_spec().kview().file == hkdf_of(secret@, spec_info_file(), 16),
            r.key_spec().kview().iv is None,
    {
        Download {
            key: KeySet::derive(secret),
            stage: Stage::Init,
            auth_nonce: Vec::new(),
            meta_nonce: Vec::new(),
            meta: None,
        }
    }

    /// Consume the authentication challenge response: on a success status and
    /// a well-formed nonce header, advance and return the authorization value
    /// for the metadata request; otherwise fail with the exact classification.
    pub fn handle_auth_response(
        &mut self,
        status_ok: bool,
        header: Option<&Vec<u8>>,
    ) -> (r: Result<Vec<u8>, DownloadError>)
        requires
            old(self).wf(),
            old(self).stage_spec() == Stage::Init,
        ensures
            final(self).wf(),
            final(self).key_spec().kview() == old(self).key_spec().kview(),
            ({
                let hs = match header {
                    Some(v) => Some(v@),
                    None => None::<Seq<u8>>,
                };
                if !status_ok {
                    &&& r == Err::<Vec<u8>, DownloadError>(DownloadError::AuthError(
                        AuthError::NonceReqStatusErr,
                    ))
                    &&& final(self).stage_spec() == Stage::Failed
                } else {
                    match spec_parse_nonce(hs) {
                        Ok(n) => {
                            &&& r matches Ok(v)
                                && v@ == spec_auth_header(old(self).key_spec().kview().auth, n)
                            &&& final(self).stage_spec() == Stage::AuthDone
                            &&& final(self).auth_nonce_view() == n
                        },
                        Err(e) => {
                            &&& r == Err::<Vec<u8>, DownloadError>(DownloadError::AuthError(e))
                            &&& final(self).stage_spec() == Stage::Failed
                        },
                    }
                }
            }),
    {
        if !status_ok {
            self.stage = Stage::Failed;
            return Err(DownloadError::AuthError(AuthError::NonceReqStatusErr));
        }
        match parse_nonce_header(header) {
            Ok(nonce) => {
                let hv = auth_header_value(self.key.auth_key().as_slice(), nonce.as_slice());
                self.auth_nonce = nonce;
                self.stage = Stage::AuthDone;
                Ok(hv)
            }
            Err(e) => {
                self.stage = Stage::Failed;
                Err(DownloadError::AuthError(e))
            }
        }
    }

    /// Consume the metadata response: parse the second-stage nonce, decrypt
    /// the metadata envelope under the metadata key, complete the key set
    /// with the IV the record carries, and return the authorization value for
    /// the body request; any failure carries the exact classification.
    pub fn handle_meta_response(
        &mut self,
        status_ok: bool,
        header: Option<&Vec<u8>>,
        body: &[u8],
    ) -> (r: Result<Vec<u8>, DownloadError>)
        requires
            old(self).wf(),
            old(self).stage_spec() == Stage::AuthDone,
            old(self).key_spec().kview().iv is None,
        ensures
            final(self).wf(),
            ({
                let hs = match header {
                    Some(v) => Some(v@),
                    None => None::<Seq<u8>>,
                };
                if !status_ok {
                    &&& r == Err::<Vec<u8>, DownloadError>(DownloadError::MetaError(
                        MetaError::NonceReqStatusErr,
                    ))
                    &&& final(self).stage_spec() == Stage::Failed
                    &&& final(self).key_spec().kview() == old(self).key_spec().kview()
                } else {
                    match spec_meta_outcome(old(self).key_spec().kview().meta, hs, body@) {
                        Ok((nonce, mv)) => {
                            &&& r matches Ok(v)
                                && v@ == spec_auth_header(old(self).key_spec().kview().auth, nonce)
                            &&& final(self).stage_spec() == Stage::MetaDone
                            &&& final(self).meta_nonce_view() == nonce
                            &&& final(self).meta_view() == Some(mv)
                            &&& final(self).key_spec().kview() == (KeySetView {
                                iv: Some(mv.iv),
                                ..old(self).key_spec().kview()
                            })
                        },
                        Err(e) => {
                            &&& r == Err::<Vec<u8>, DownloadError>(DownloadError::MetaError(e))
                            &&& final(self).stage_spec() == Stage::Failed
                            &&& final(self).key_spec().kview() == old(self).key_spec().kview()
                        },
                    }
                }
            }),
    {
        if !status_ok {
            self.stage = Stage::Failed;
            return Err(DownloadError::MetaError(MetaError::NonceReqStatusErr));
        }
        let nonce = match parse_nonce_header(header) {
            Ok(n) => n,
            Err(e) => {
                self.stage = Stage::Failed;
                return Err(DownloadError::MetaError(meta_error_of(e)));
            }
        };
        let resp = match MetadataResponse::from_body(body) {
            Ok(m) => m,
            Err(e) => {
                self.stage = Stage::Failed;
                return Err(DownloadError::MetaError(e));
            }
        };
        let md = match resp.decrypt_metadata(&self.key) {
            Ok(m) => m,
            Err(e) => {
                self.stage = Stage::Failed;
                return Err(DownloadError::MetaError(e));
            }
        };
        let ivv = crate::bytes::copy_range(md.iv().as_slice(), 0, md.iv().len());
        assert(ivv@ =~= md.mview().iv);
        self.key.set_iv(ivv);
        let hv = auth_header_value(self.key.auth_key().as_slice(), nonce.as_slice());
        self.meta_nonce = nonce;
        self.meta = Some(md);
        self.stage = Stage::MetaDone;
        Ok(hv)
    }

    /// Record that the pending request itself failed — the transport returned
    /// no response at all — and classify the failure by the stage it
    /// interrupted.
    pub fn fail_request(&mut self) -> (r: DownloadError)
        requires
            old(self).wf(),
        ensures
            final(self).wf(),
            final(self).stage_spec() == Stage::Failed,
            final(self).key_spec().kview() == old(self).key_spec().kview(),
            r == match old(self).stage_spec() {
                Stage::Init => DownloadError::AuthError(AuthError::NonceReqFail),
                Stage::AuthDone => DownloadError::MetaError(MetaError::NonceReqFail),
                _ => DownloadError::RequestError,
            },
    {
        let r = match self.stage {
            Stage::Init => DownloadError::AuthError(AuthError::NonceReqFail),
            Stage::AuthDone => DownloadError::MetaError(MetaError::NonceReqFail),
            _ => DownloadError::RequestError,
        };
        self.stage = Stage::Failed;
        r
    }

    /// Consume the head of the body response: on a success status that
    /// declares a content length, hand that length on for the writer; a
    /// non-success status or a missing length fails the download.
    pub fn handle_body_response(
        &mut self,
        status_ok: bool,
        content_length: Option<u64>,
    ) -> (r: Result<u64, DownloadError>)
        requires
            old(self).wf(),
            old(self).stage_spec() == Stage::MetaDone,
        ensures
            final(self).wf(),
            final(self).key_spec().kview() == old(self).key_spec().kview(),
            if !status_ok {
                &&& r == Err::<u64, DownloadError>(DownloadError::RequestError)
                &&& final(self).stage_spec() == Stage::Failed
            } else {
                match content_length {
                    Some(len) => {
                        &&& r == Ok::<u64, DownloadError>(len)
                        &&& final(self).stage_spec() == Stage::MetaDone
                    },
                    None => {
                        &&& r == Err::<u64, DownloadError>(DownloadError::DecodeError)
                        &&& final(self).stage_spec() == Stage::Failed
                    },
                }
            },
    {
        if !status_ok {
            self.stage = Stage::Failed;
            return Err(DownloadError::RequestError);
        }
        match content_length {
            Some(len) => Ok(len),
            None => {
                self.stage = Stage::Failed;
                Err(DownloadError::DecodeError)
            }
        }
    }

    /// Build the decrypt-verify writer for a body stream of the declared
    /// length (trailing tag included). Fails — deterministically, producing
    /// no writer at all — while the IV is not yet set, when the declared
    /// length cannot even hold the tag, and when its ciphertext part is
    /// larger than the cipher accepts.
    pub fn create_file_writer(&self, len: usize) -> (r: Result<ProgressWriter, DownloadError>)
        requires
            self.wf(),
        ensures
            ({
                let ivo = self.key_spec().kview().iv;
                match r {
                    Ok(w) => {
                        &&& ivo is Some
                        &&& len >= 16 && len - 16 <= 0x7fff_ffff
                        &&& w.wf()
                        &&& !w.inner_spec().is_done()
                        &&& w.inner_spec().key_view() == self.key_spec().kview().file
                        &&& w.inner_spec().iv_view() == ivo->0
                        &&& w.inner_spec().total_spec() == len
                        &&& w.inner_spec().received() == Seq::<u8>::empty()
                    },
                    Err(e) => {
                        &&& (ivo is None || len < 16 || len - 16 > 0x7fff_ffff)
                        &&& e == DownloadError::EncryptionError
                    },
                }
            }),
    {
        let iv = match self.key.iv() {
            Some(iv) => iv,
            None => {
                return Err(DownloadError::EncryptionError);
            }
        };
        match EncryptedFileWriter::new(len, self.key.file_key().as_slice(), iv.as_slice()) {
            Ok(w) => Ok(ProgressWriter::new(w)),
            Err(e) => Err(e),
        }
    }

    /// The final gate: finish the fully received stream and release the
    /// plaintext only if the trailing tag verified. An unverified stream —
    /// short, or with a mismatching tag — is reported as a failure and its
    /// provisional plaintext is discarded, never returned.
    pub fn complete(&mut self, w: ProgressWriter) -> (r: Result<Vec<u8>, DownloadError>)
        requires
            old(self).wf(),
            old(self).stage_spec() == Stage::MetaDone,
            w.wf(),
            !w.inner_spec().is_done(),
        ensures
            final(self).wf(),
            final(self).key_spec().kview() == old(self).key_spec().kview(),
            ({
                let inner = w.inner_spec();
                if inner.received().len() != inner.total_spec() {
                    &&& r == Err::<Vec<u8>, DownloadError>(DownloadError::EncryptionError)
                    &&& final(self).stage_spec() == Stage::Failed
                } else {
                    if inner.tag_part() == gcm_tag_of(inner.key_view(), inner.iv_view(), inner.ct_part()) {
                        &&& r matches Ok(v)
                            && v@ == gcm_plain_of(inner.key_view(), inner.iv_view(), inner.ct_part())
                        &&& final(self).stage_spec() == Stage::Done
                    } else {
                        &&& r == Err::<Vec<u8>, DownloadError>(DownloadError::EncryptionError)
                        &&& final(self).stage_spec() == Stage::Failed
                    }
                }
            }),
    {
        let mut w = w;
        if w.received_len() != w.total_len() {
            self.stage = Stage::Failed;
            return Err(DownloadError::EncryptionError);
        }
        w.finish();
        match w.verified() {
            Some(true) => {
                self.stage = Stage::Done;
                Ok(w.into_output())
            }
            _ => {
                self.stage = Stage::Failed;
                Err(DownloadError::EncryptionError)
            }
        }
    }
}

/// Round trip: GCM-encrypting any plaintext under the file key derived from
/// any secret, and streaming `ciphertext || tag` through the decrypt-verify
/// writer, recovers exactly that plaintext, verified.
pub fn round_trip_recovers(secret: &[u8], iv: &[u8], plain: &[u8]) -> (r: (Vec<u8>, bool))
    requires
        iv@.len() == 12,
        plain@.len() <= 0x7fff_ffff,
    ensures
        r.0@ == plain@,
        r.1,
{
    let key = KeySet::derive(secret);
    let (ct, tag) = gcm_encrypt(key.file_key().as_slice(), iv, plain);
    let total = ct.len() + 16;
    match EncryptedFileWriter::new(total, key.file_key().as_slice(), iv) {
        Err(_) => {
            proof {
                assert(false);
            }
            (Vec::new(), false)
        }
        Ok(mut w) => {
            let _ = w.write_chunk(ct.as_slice());
            let _ = w.write_chunk(tag.as_slice());
            assert(w.received() =~= ct@ + tag@);
            w.finish();
            proof {
                assert((ct@ + tag@).take(total - 16) =~= ct@);
                assert((ct@ + tag@).skip(total - 16) =~= tag@);
            }
            let ok = match w.verified() {
                Some(b) => b,
                None => false,
            };
            (w.into_output(), ok)
        }
    }
}

/// Tamper detection: if a trailing tag is the one GCM computes over a
/// ciphertext, then any altered tag — differing in as little as one bit — is
/// not, and a stream carrying it can never verify.
pub proof fn lemma_altered_tag_rejected(
    key: Seq<u8>,
    iv: Seq<u8>,
    ct: Seq<u8>,
    tag: Seq<u8>,
    altered: Seq<u8>,
)
    ensures
        tag == gcm_tag_of(key, iv, ct) && altered != tag ==> altered != gcm_tag_of(key, iv, ct),
{
}

} // verus!
