//! The streaming decrypt-verify writer: ciphertext is pushed in arbitrary
//! chunks up to a declared total length whose last 16 bytes are the trailing
//! tag. Decryption is speculative — the plaintext is produced whether or not
//! the tag matches — and the authentication outcome only becomes decidable
//! once the declared length has been consumed and the stream is finished.

use vstd::prelude::*;
use crate::bytes::copy_range;
use crate::crypto::{aead_open, gcm_decrypt_unchecked, gcm_plain_of, gcm_tag_of};
use crate::download::DownloadError;
use crate::progress::ProgressReporter;

verus! {

/// Decrypts a `ciphertext || tag` stream under the file key and IV.
pub struct EncryptedFileWriter {
    key: Vec<u8>,
    iv: Vec<u8>,
    total: usize,
    buf: Vec<u8>,
    plain: Vec<u8>,
    ok: Option<bool>,
}

impl EncryptedFileWriter {
    /// The file key.
    pub closed spec fn key_view(&self) -> Seq<u8> {
        self.key@
    }

    /// The IV.
    pub closed spec fn iv_view(&self) -> Seq<u8> {
        self.iv@
    }

    /// The declared total stream length, trailing tag included.
    pub closed spec fn total_spec(&self) -> int {
        self.total as int
    }

    /// The ciphertext bytes received so far.
    pub closed spec fn received(&self) -> Seq<u8> {
        self.buf@
    }

    /// The plaintext produced by `finish`; empty before it.
    pub closed spec fn out_view(&self) -> Seq<u8> {
        self.plain@
    }

    /// The verification outcome: none before `finish`.
    pub closed spec fn flag(&self) -> Option<bool> {
        self.ok
    }

    /// Whether the stream was finished.
    pub open spec fn is_done(&self) -> bool {
        self.flag() is Some
    }

    /// The ciphertext part of the full stream: all but the last 16 bytes.
    pub open spec fn ct_part(&self) -> Seq<u8> {
        self.received().take(self.total_spec() - 16)
    }

    /// The trailing tag part of the full stream: its last 16 bytes.
    pub open spec fn tag_part(&self) -> Seq<u8> {
        self.received().skip(self.total_spec() - 16)
    }

    /// Key and IV have the sizes of the cipher, the declared length holds at
    /// least the tag and a ciphertext the cipher accepts (openssl takes the
    /// buffer length as a C `int`), and no more than the declared length was
    /// received.
    pub open spec fn wf(&self) -> bool {
        &&& self.key_view().len() == 16
        &&& self.iv_view().len() == 12
        &&& self.total_spec() >= 16
        &&& self.total_spec() - 16 <= 0x7fff_ffff
        &&& self.received().len() <= self.total_spec()
    }

    /// Build a writer for a declared stream length; the length must at least
    /// hold the trailing tag, its ciphertext part must stay within what the
    /// cipher accepts, and key and IV must have the cipher's sizes.
    pub fn new(total: usize, key: &[u8], iv: &[u8]) -> (r: Result<EncryptedFileWriter, DownloadError>)
        ensures
            match r {
                Ok(w) => {
                    &&& total >= 16 && total - 16 <= 0x7fff_ffff
                    &&& key@.len() == 16 && iv@.len() == 12
                    &&& w.wf()
                    &&& w.key_view() == key@
                    &&& w.iv_view() == iv@
                    &&& w.total_spec() == total
                    &&& w.received() == Seq::<u8>::empty()
                    &&& !w.is_done()
                },
                Err(e) => {
                    &&& (total < 16 || total - 16 > 0x7fff_ffff || key@.len() != 16 || iv@.len() != 12)
                    &&& e == DownloadError::EncryptionError
                },
            },
    {
        if total < 16 || key.len() != 16 || iv.len() != 12 {
            return Err(DownloadError::EncryptionError);
        }
        if total - 16 > 0x7fff_ffff {
            return Err(DownloadError::EncryptionError);
        }
        let mut k: Vec<u8> = Vec::new();
        crate::bytes::push_all(&mut k, key);
        let mut v: Vec<u8> = Vec::new();
        crate::bytes::push_all(&mut v, iv);
        assert(k@ =~= key@);
        assert(v@ =~= iv@);
        Ok(EncryptedFileWriter {
            key: k,
            iv: v,
            total,
            buf: Vec::new(),
            plain: Vec::new(),
            ok: None,
        })
    }

    /// Accept one ciphertext chunk. Pushing more bytes than the declared
    /// length fails and leaves the writer unchanged.
    pub fn write_chunk(&mut self, chunk: &[u8]) -> (r: Result<(), DownloadError>)
        requires
            old(self).wf(),
            !old(self).is_done(),
        ensures
            final(self).wf(),
            !final(self).is_done(),
            final(self).key_view() == old(self).key_view(),
            final(self).iv_view() == old(self).iv_view(),
            final(self).total_spec() == old(self).total_spec(),
            final(self).out_view() == old(self).out_view(),
            if old(self).received().len() + chunk@.len() <= old(self).total_spec() {
                r is Ok && final(self).received() == old(self).received() + chunk@
            } else {
                r == Err::<(), DownloadError>(DownloadError::EncryptionError)
                    && final(self).received() == old(self).received()
            },
    {
        if chunk.len() > self.total - self.buf.len() {
            return Err(DownloadError::EncryptionError);
        }
        crate::bytes::push_all(&mut self.buf, chunk);
        Ok(())
    }

    /// How many bytes were received so far.
    pub fn received_len(&self) -> (r: usize)
        ensures
            r == self.received().len(),
    {
        self.buf.len()
    }

    /// The declared total stream length.
    pub fn total_len(&self) -> (r: usize)
        ensures
            r == self.total_spec(),
    {
        self.total
    }

    /// Finish the fully received stream: split off the trailing tag,
    /// speculatively decrypt the ciphertext part, and record whether the tag
    /// is the one GCM computes over it.
    pub fn finish(&mut self)
        requires
            old(self).wf(),
            !old(self).is_done(),
            old(self).received().len() == old(self).total_spec(),
        ensures
            final(self).wf(),
            final(self).is_done(),
            final(self).key_view() == old(self).key_view(),
            final(self).iv_view() == old(self).iv_view(),
            final(self).total_spec() == old(self).total_spec(),
            final(self).received() == old(self).received(),
            final(self).out_view() == gcm_plain_of(
                old(self).key_view(),
                old(self).iv_view(),
                old(self).ct_part(),
            ),
            final(self).flag() == Some(
                old(self).tag_part() == gcm_tag_of(
                    old(self).key_view(),
                    old(self).iv_view(),
                    old(self).ct_part(),
                ),
            ),
    {
        let split = self.total - 16;
        let ct = copy_range(self.buf.as_slice(), 0, split);
        let tag = copy_range(self.buf.as_slice(), split, self.total);
        proof {
            assert(ct@ =~= self.buf@.take(self.total as int - 16));
            assert(tag@ =~= self.buf@.skip(self.total as int - 16));
        }
        match aead_open(self.key.as_slice(), self.iv.as_slice(), ct.as_slice(), tag.as_slice()) {
            Some(plain) => {
                self.plain = plain;
                self.ok = Some(true);
            }
            None => {
                self.plain = gcm_decrypt_unchecked(self.key.as_slice(), self.iv.as_slice(), ct.as_slice());
                self.ok = Some(false);
            }
        }
    }

    /// The verification outcome: `None` while the stream is not finished,
    /// else whether the trailing tag was authentic.
    pub fn verified(&self) -> (r: Option<bool>)
        ensures
            r == self.flag(),
    {
        self.ok
    }

    /// The plaintext produced so far (empty before `finish`). Callers must
    /// treat it as untrusted unless `verified` returned true.
    pub fn output(&self) -> (r: &Vec<u8>)
        ensures
            r@ == self.out_view(),
    {
        &self.plain
    }

    /// Take the produced plaintext out of the writer.
    pub fn into_output(self) -> (r: Vec<u8>)
        ensures
            r@ == self.out_view(),
    {
        self.plain
    }
}

/// The decrypt-verify writer together with the progress counter fed once per
/// accepted chunk. The counter is owned here rather than handed in by the
/// caller: a display path polls it through `progress` between writes instead
/// of sharing the counter itself.
pub struct ProgressWriter {
    inner: EncryptedFileWriter,
    reporter: ProgressReporter,
}

impl ProgressWriter {
    /// The wrapped writer.
    pub closed spec fn inner_spec(&self) -> EncryptedFileWriter {
        self.inner
    }

    /// The progress counter.
    pub closed spec fn reporter_spec(&self) -> ProgressReporter {
        self.reporter
    }

    /// The writer is well formed and the counter mirrors it exactly: the
    /// transferred count equals the number of received ciphertext bytes — the
    /// sum of all accepted chunk sizes — and the total is the declared length.
    pub open spec fn wf(&self) -> bool {
        &&& self.inner_spec().wf()
        &&& self.reporter_spec().transferred_spec() == self.inner_spec().received().len()
        &&& self.reporter_spec().total_spec() == self.inner_spec().total_spec()
    }

    /// Wrap a fresh writer and start the progress counter at its declared
    /// total.
    pub fn new(inner: EncryptedFileWriter) -> (r: ProgressWriter)
        requires
            inner.wf(),
            !inner.is_done(),
            inner.received() == Seq::<u8>::empty(),
        ensures
            r.wf(),
            r.inner_spec() == inner,
            !r.inner_spec().is_done(),
            r.reporter_spec().is_active(),
            !r.reporter_spec().is_done(),
    {
        let mut reporter = ProgressReporter::new();
        let total = inner.total_len();
        reporter.start(total as u64);
        ProgressWriter { inner, reporter }
    }

    /// Accept one ciphertext chunk and count its size.
    pub fn write(&mut self, chunk: &[u8]) -> (r: Result<(), DownloadError>)
        requires
            old(self).wf(),
            !old(self).inner_spec().is_done(),
        ensures
            final(self).wf(),
            !final(self).inner_spec().is_done(),
            final(self).inner_spec().key_view() == old(self).inner_spec().key_view(),
            final(self).inner_spec().iv_view() == old(self).inner_spec().iv_view(),
            final(self).inner_spec().total_spec() == old(self).inner_spec().total_spec(),
            if old(self).inner_spec().received().len() + chunk@.len() <= old(self).inner_spec().total_spec() {
                r is Ok
                    && final(self).inner_spec().received() == old(self).inner_spec().received() + chunk@
                    && final(self).reporter_spec().transferred_spec()
                        == old(self).reporter_spec().transferred_spec() + chunk@.len()
            } else {
                r == Err::<(), DownloadError>(DownloadError::EncryptionError)
                    && final(self).inner_spec().received() == old(self).inner_spec().received()
                    && final(self).reporter_spec().transferred_spec()
                        == old(self).reporter_spec().transferred_spec()
            },
    {
        let n = chunk.len();
        match self.inner.write_chunk(chunk) {
            Ok(()) => {
                self.reporter.add(n as u64);
                Ok(())
            }
            Err(e) => Err(e),
        }
    }

    /// Finish the fully received stream and mark the progress terminal.
    pub fn finish(&mut self)
        requires
            old(self).wf(),
            !old(self).inner_spec().is_done(),
            old(self).inner_spec().received().len() == old(self).inner_spec().total_spec(),
        ensures
            final(self).wf(),
            final(self).inner_spec().is_done(),
            final(self).reporter_spec().is_done(),
            final(self).inner_spec().key_view() == old(self).inner_spec().key_view(),
            final(self).inner_spec().iv_view() == old(self).inner_spec().iv_view(),
            final(self).inner_spec().total_spec() == old(self).inner_spec().total_spec(),
            final(self).inner_spec().received() == old(self).inner_spec().received(),
            final(self).inner_spec().out_view() == gcm_plain_of(
                old(self).inner_spec().key_view(),
                old(self).inner_spec().iv_view(),
                old(self).inner_spec().ct_part(),
            ),
            final(self).inner_spec().flag() == Some(
                old(self).inner_spec().tag_part() == gcm_tag_of(
                    old(self).inner_spec().key_view(),
                    old(self).inner_spec().iv_view(),
                    old(self).inner_spec().ct_part(),
                ),
            ),
    {
        self.inner.finish();
        self.reporter.finish();
    }

    /// The verification outcome: `None` while the stream is not finished.
    pub fn verified(&self) -> (r: Option<bool>)
        ensures
            r == self.inner_spec().flag(),
    {
        self.inner.verified()
    }

    /// The plaintext produced so far (empty before `finish`).
    pub fn output(&self) -> (r: &Vec<u8>)
        ensures
            r@ == self.inner_spec().out_view(),
    {
        self.inner.output()
    }

    /// How many bytes were received so far.
    pub fn received_len(&self) -> (r: usize)
        ensures
            r == self.inner_spec().received().len(),
    {
        self.inner.received_len()
    }

    /// The declared total stream length.
    pub fn total_len(&self) -> (r: usize)
        ensures
            r == self.inner_spec().total_spec(),
    {
        self.inner.total_len()
    }

    /// Take the produced plaintext out of the writer.
    pub fn into_output(self) -> (r: Vec<u8>)
        ensures
            r@ == self.inner_spec().out_view(),
    {
        self.inner.into_output()
    }

    /// The transferred and total byte counts, for a display path to poll.
    pub fn progress(&self) -> (r: (u64, u64))
        ensures
            r.0 == self.reporter_spec().transferred_spec(),
            r.1 == self.reporter_spec().total_spec(),
    {
        (self.reporter.transferred(), self.reporter.total())
    }
}

} // verus!
