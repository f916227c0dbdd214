//! Per-resource key material: three subkeys expanded from the shared secret
//! with fixed, use-specific info strings, plus the once-settable IV slot.

use vstd::prelude::*;
use crate::crypto::{hkdf_expand, hkdf_of};

verus! {

/// The info string distinguishing the authentication key: `authentication`.
pub open spec fn spec_info_auth() -> Seq<u8> {
    seq![97u8, 117u8, 116u8, 104u8, 101u8, 110u8, 116u8, 105u8, 99u8, 97u8, 116u8, 105u8, 111u8, 110u8]
}

/// The info string distinguishing the metadata key: `metadata`.
pub open spec fn spec_info_meta() -> Seq<u8> {
    seq![109u8, 101u8, 116u8, 97u8, 100u8, 97u8, 116u8, 97u8]
}

/// The info string distinguishing the file key: `encryption`.
pub open spec fn spec_info_file() -> Seq<u8> {
    seq![101u8, 110u8, 99u8, 114u8, 121u8, 112u8, 116u8, 105u8, 111u8, 110u8]
}

fn info_auth() -> (r: Vec<u8>)
    ensures
        r@ == spec_info_auth(),
{
    let mut v: Vec<u8> = Vec::new();
    v.push(97u8);
    v.push(117u8);
    v.push(116u8);
    v.push(104u8);
    v.push(101u8);
    v.push(110u8);
    v.push(116u8);
    v.push(105u8);
    v.push(99u8);
    v.push(97u8);
    v.push(116u8);
    v.push(105u8);
    v.push(111u8);
    v.push(110u8);
    assert(v@ =~= spec_info_auth());
    v
}

fn info_meta() -> (r: Vec<u8>)
    ensures
        r@ == spec_info_meta(),
{
    let mut v: Vec<u8> = Vec::new();
    v.push(109u8);
    v.push(101u8);
    v.push(116u8);
    v.push(97u8);
    v.push(100u8);
    v.push(97u8);
    v.push(116u8);
    v.push(97u8);
    assert(v@ =~= spec_info_meta());
    v
}

fn info_file() -> (r: Vec<u8>)
    ensures
        r@ == spec_info_file(),
{
    let mut v: Vec<u8> = Vec::new();
    v.push(101u8);
    v.push(110u8);
    v.push(99u8);
    v.push(114u8);
    v.push(121u8);
    v.push(112u8);
    v.push(116u8);
    v.push(105u8);
    v.push(111u8);
    v.push(110u8);
    assert(v@ =~= spec_info_file());
    v
}

/// The key material of a key set, as mathematical sequences.
pub ghost struct KeySetView {
    pub auth: Seq<u8>,
    pub meta: Seq<u8>,
    pub file: Seq<u8>,
    pub iv: Option<Seq<u8>>,
}

/// All cryptographic material for one resource: a 64-byte authentication key,
/// a 16-byte metadata key, a 16-byte file key, and an IV slot that is unset
/// until the decrypted metadata reveals it.
pub struct KeySet {
    auth_key: Vec<u8>,
    meta_key: Vec<u8>,
    file_key: Vec<u8>,
    iv: Option<Vec<u8>>,
}

impl KeySet {
    /// The key material this set holds.
    pub closed spec fn kview(&self) -> KeySetView {
        KeySetView {
            auth: self.auth_key@,
            meta: self.meta_key@,
            file: self.file_key@,
            iv: match self.iv {
                Some(v) => Some(v@),
                None => None,
            },
        }
    }

    /// The subkeys have the sizes of the scheme, and the IV, once set, is 96 bits.
    pub open spec fn wf(&self) -> bool {
        &&& self.kview().auth.len() == 64
        &&& self.kview().meta.len() == 16
        &&& self.kview().file.len() == 16
        &&& match self.kview().iv {
            Some(v) => v.len() == 12,
            None => true,
        }
    }

    /// Expand the shared secret into the three subkeys; the IV starts unset.
    pub fn derive(secret: &[u8]) -> (r: KeySet)
        ensures
            r.wf(),
            r.kview().auth == hkdf_of(secret@, spec_info_auth(), 64),
            r.kview().meta == hkdf_of(secret@, spec_info_meta(), 16),
            r.kview().file == hkdf_of(secret@, spec_info_file(), 16),
            r.kview().iv is None,
    {
        let auth_key = hkdf_expand(secret, info_auth().as_slice(), 64);
        let meta_key = hkdf_expand(secret, info_meta().as_slice(), 16);
        let file_key = hkdf_expand(secret, info_file().as_slice(), 16);
        KeySet { auth_key, meta_key, file_key, iv: None }
    }

    /// Store the IV; it can be set exactly once.
    pub fn set_iv(&mut self, iv: Vec<u8>)
        requires
            old(self).kview().iv is None,
            iv@.len() == 12,
        ensures
            final(self).kview() == (KeySetView { iv: Some(iv@), ..old(self).kview() }),
    {
        self.iv = Some(iv);
    }

    /// The authentication key, signing the challenge nonces.
    pub fn auth_key(&self) -> (r: &Vec<u8>)
        ensures
            r@ == self.kview().auth,
    {
        &self.auth_key
    }

    /// The metadata key, decrypting the metadata record.
    pub fn meta_key(&self) -> (r: &Vec<u8>)
        ensures
            r@ == self.kview().meta,
    {
        &self.meta_key
    }

    /// The file key, decrypting the file body.
    pub fn file_key(&self) -> (r: &Vec<u8>)
        ensures
            r@ == self.kview().file,
    {
        &self.file_key
    }

    /// The IV, if it has been set; operations that need it fail before then.
    pub fn iv(&self) -> (r: Option<&Vec<u8>>)
        ensures
            match r {
                Some(v) => self.kview().iv == Some(v@),
                None => self.kview().iv is None,
            },
    {
        match &self.iv {
            Some(v) => Some(v),
            None => None,
        }
    }
}

} // verus!
