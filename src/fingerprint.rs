//! Content fingerprints: SHA-256 of a file's bytes, fed in chunks, in hex.

use vstd::prelude::*;
use sha2::Digest;
use crate::text::{hex_of, hex_string};
use vstd::slice::slice_subrange;

verus! {

/// A running SHA-256 computation of sha2, which Verus sees only through
/// `absorbed`.
#[verifier::external_body]
pub struct Sha256State {
    inner: sha2::Sha256,
}

/// The bytes that a SHA-256 hasher has absorbed since it was created.
pub uninterp spec fn absorbed(h: Sha256State) -> Seq<u8>;

/// The 32-byte SHA-256 digest of a byte string.
pub uninterp spec fn sha256_of(data: Seq<u8>) -> Seq<u8>;

/// Relies on `Sha256::new` (sha2): a fresh hasher has absorbed nothing.
#[verifier::external_body]
fn hasher_new() -> (r: Sha256State)
    ensures
        absorbed(r) == Seq::<u8>::empty(),
{
    Sha256State { inner: sha2::Sha256::new() }
}

/// Relies on `Digest::update` (sha2): the data is absorbed after what came before.
#[verifier::external_body]
fn hasher_update(h: &mut Sha256State, data: &[u8])
    ensures
        absorbed(*final(h)) == absorbed(*old(h)) + data@,
{
    h.inner.update(data);
}

/// Relies on `Digest::finalize` (sha2): the digest of everything absorbed, 32 bytes.
#[verifier::external_body]
fn hasher_finalize(h: Sha256State) -> (r: Vec<u8>)
    ensures
        r@ == sha256_of(absorbed(h)),
        r@.len() == 32,
{
    h.inner.finalize().to_vec()
}

/// The fingerprint of a byte string: its SHA-256 digest in lower-case hex.
pub open spec fn fingerprint_of(data: Seq<u8>) -> Seq<char> {
    hex_of(sha256_of(data))
}

/// A streaming fingerprint: file content is fed in chunks, so no file is
/// ever held whole in memory.
pub struct Fingerprinter {
    hasher: Sha256State,
    fed: Ghost<Seq<u8>>,
}

impl Fingerprinter {
    /// The bytes fed so far.
    pub closed spec fn fed(&self) -> Seq<u8> {
        self.fed@
    }

    pub closed spec fn wf(&self) -> bool {
        absorbed(self.hasher) == self.fed@
    }

    pub fn new() -> (r: Fingerprinter)
        ensures
            r.wf(),
            r.fed() == Seq::<u8>::empty(),
    {
        Fingerprinter { hasher: hasher_new(), fed: Ghost(Seq::empty()) }
    }

    /// Feeds the next chunk of content.
    pub fn update(&mut self, chunk: &[u8])
        requires
            old(self).wf(),
        ensures
            final(self).wf(),
            final(self).fed() == old(self).fed() + chunk@,
    {
        hasher_update(&mut self.hasher, chunk);
        self.fed = Ghost(self.fed@ + chunk@);
    }

    /// The fingerprint of everything fed.
    pub fn finish(self) -> (r: String)
        requires
            self.wf(),
        ensures
            r@ == fingerprint_of(self.fed()),
            r@.len() == 64,
    {
        let digest = hasher_finalize(self.hasher);
        let r = hex_string(&digest);
        proof {
            lemma_hex_len(digest@);
        }
        r
    }
}

/// Two hex digits per byte.
pub proof fn lemma_hex_len(bytes: Seq<u8>)
    ensures
        hex_of(bytes).len() == 2 * bytes.len(),
    decreases bytes.len(),
{
    if bytes.len() > 0 {
        lemma_hex_len(bytes.drop_last());
    }
}

/// Size of the chunks in which `fingerprint_bytes` feeds its input.
pub const CHUNK_BYTES: usize = 8192;

/// Fingerprint of a byte string, fed through the hasher in fixed-size chunks.
pub fn fingerprint_bytes(data: &[u8]) -> (r: String)
    ensures
        r@ == fingerprint_of(data@),
{
    let mut fp = Fingerprinter::new();
    let n = data.len();
    let mut start: usize = 0;
    while start < n
        invariant
            start <= n,
            n == data@.len(),
            fp.wf(),
            fp.fed() == data@.take(start as int),
        decreases n - start,
    {
        let end: usize = if n - start > CHUNK_BYTES {
            start + CHUNK_BYTES
        } else {
            n
        };
        let chunk = slice_subrange(data, start, end);
        fp.update(chunk);
        assert(data@.take(start as int) + data@.subrange(start as int, end as int) =~= data@.take(
            end as int,
        ));
        start = end;
    }
    assert(data@.take(n as int) =~= data@);
    fp.finish()
}

/// Feeding content in any split gives the same fingerprint as feeding it whole:
/// equal content has equal fingerprints, however it was chunked.
pub proof fn lemma_fingerprint_deterministic(a: Seq<u8>, b: Seq<u8>, c: Seq<u8>, d: Seq<u8>)
    requires
        a + b == c + d,
    ensures
        fingerprint_of(a + b) == fingerprint_of(c + d),
{
}

} // verus!
