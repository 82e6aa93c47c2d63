//! Whole-file byte statistics: the histogram of byte values and the SHA-256 digest.
use sha2::{Digest, Sha256};
use vstd::prelude::*;

use crate::text::to_hex_lower;

verus! {

/// The SHA-256 digest of a byte sequence, as the `sha2` crate computes it.
pub uninterp spec fn sha256_of(data: Seq<u8>) -> Seq<u8>;

/// `sha2::Sha256::digest`: the 32-byte SHA-256 digest of `data`.
///
/// Trusted: the result is `sha256_of(data)` and has the 32 bytes of a SHA-256
/// digest; which bytes those are is not stated.
#[verifier::external_body]
fn sha256_digest(data: &[u8]) -> (r: Vec<u8>)
    ensures
        r@ == sha256_of(data@),
        r@.len() == 32,
{
    Sha256::digest(data).to_vec()
}

/// Number of occurrences of `b` in `s`.
pub open spec fn byte_count(s: Seq<u8>, b: int) -> nat
    decreases s.len(),
{
    if s.len() == 0 {
        0
    } else {
        byte_count(s.drop_last(), b) + if s.last() == b {
            1nat
        } else {
            0nat
        }
    }
}

/// Byte-value statistics of a whole file.
///
/// The relative frequency of byte value `v` is `counts[v] / total`.
#[derive(Debug)]
pub struct ByteLevelFeature {
    /// `counts[v]` is the number of bytes of value `v`.
    pub counts: Vec<usize>,
    /// Number of bytes of the file.
    pub total: usize,
    /// Lower-case hexadecimal SHA-256 digest of the file.
    pub sha256: String,
}

/// `f` holds the statistics of `data`.
pub open spec fn is_byte_level_of(f: &ByteLevelFeature, data: Seq<u8>) -> bool {
    &&& f.counts@.len() == 256
    &&& forall|v: int| 0 <= v < 256 ==> #[trigger] f.counts@[v] == byte_count(data, v)
    &&& f.total == data.len()
    &&& f.sha256@ == crate::text::spec_hex_lower(sha256_of(data))
    &&& f.sha256@.len() == 64
}

proof fn lemma_byte_count_bound(s: Seq<u8>, b: int)
    ensures
        byte_count(s, b) <= s.len(),
    decreases s.len(),
{
    if s.len() > 0 {
        lemma_byte_count_bound(s.drop_last(), b);
    }
}

/// Histogram of byte values: `counts[v]` is the number of bytes equal to `v`.
pub fn byte_histogram(data: &[u8]) -> (r: Vec<usize>)
    ensures
        r@.len() == 256,
        forall|v: int| 0 <= v < 256 ==> #[trigger] r@[v] == byte_count(data@, v),
{
    let mut counts = crate::texture::zeros(256);
    let mut i: usize = 0;
    while i < data.len()
        invariant
            i <= data@.len(),
            counts@.len() == 256,
            forall|v: int| 0 <= v < 256 ==> #[trigger] counts@[v] == byte_count(data@.subrange(0, i as int), v),
        decreases data@.len() - i,
    {
        let b = data[i] as usize;
        proof {
            assert(data@.subrange(0, i + 1).drop_last() == data@.subrange(0, i as int));
            lemma_byte_count_bound(data@.subrange(0, i as int), b as int);
        }
        let c = counts[b];
        counts.set(b, c + 1);
        i += 1;
    }
    assert(data@.subrange(0, data@.len() as int) == data@);
    counts
}

impl ByteLevelFeature {
    /// Statistics of an empty file.
    pub fn empty() -> (r: Self)
        ensures
            r.counts@.len() == 256,
            forall|v: int| 0 <= v < 256 ==> #[trigger] r.counts@[v] == 0,
            r.total == 0,
            r.sha256@.len() == 0,
    {
        ByteLevelFeature { counts: crate::texture::zeros(256), total: 0, sha256: String::new() }
    }

    /// Byte histogram and SHA-256 digest of a file; an empty file is refused.
    pub fn extract(raw_data: &[u8]) -> (r: Result<Self, String>)
        ensures
            raw_data@.len() == 0 <==> r is Err,
            r matches Err(e) ==> e@ == "raw_data is empty"@,
            r matches Ok(f) ==> is_byte_level_of(&f, raw_data@),
    {
        if raw_data.len() == 0 {
            return Err(String::from_str("raw_data is empty"));
        }
        let counts = byte_histogram(raw_data);
        let digest = sha256_digest(raw_data);
        let sha256 = to_hex_lower(digest.as_slice());
        Ok(ByteLevelFeature { counts, total: raw_data.len(), sha256 })
    }
}

/// Sum of the entries of a sequence of counts.
pub open spec fn seq_sum(s: Seq<usize>) -> int
    decreases s.len(),
{
    if s.len() == 0 {
        0
    } else {
        seq_sum(s.drop_last()) + s.last()
    }
}

/// Occurrences in `s` of the byte values below `k`.
pub open spec fn count_below(s: Seq<u8>, k: int) -> int
    decreases k,
{
    if k <= 0 {
        0
    } else {
        count_below(s, k - 1) + byte_count(s, k - 1)
    }
}

proof fn lemma_count_below_step(s: Seq<u8>, k: int)
    requires
        s.len() > 0,
        0 <= k,
    ensures
        count_below(s, k) == count_below(s.drop_last(), k) + if s.last() < k { 1int } else { 0int },
    decreases k,
{
    if k > 0 {
        lemma_count_below_step(s, k - 1);
    }
}

proof fn lemma_count_below_empty(s: Seq<u8>, k: int)
    requires
        s.len() == 0,
    ensures
        count_below(s, k) == 0,
    decreases k,
{
    if k > 0 {
        lemma_count_below_empty(s, k - 1);
    }
}

proof fn lemma_count_below_all(s: Seq<u8>)
    ensures
        count_below(s, 256) == s.len(),
    decreases s.len(),
{
    if s.len() > 0 {
        lemma_count_below_step(s, 256);
        lemma_count_below_all(s.drop_last());
    } else {
        lemma_count_below_empty(s, 256);
    }
}

proof fn lemma_sum_matches(counts: Seq<usize>, s: Seq<u8>, k: int)
    requires
        0 <= k <= counts.len(),
        forall|v: int| 0 <= v < k ==> #[trigger] counts[v] == byte_count(s, v),
    ensures
        seq_sum(counts.take(k)) == count_below(s, k),
    decreases k,
{
    if k > 0 {
        lemma_sum_matches(counts, s, k - 1);
        assert(counts.take(k).drop_last() == counts.take(k - 1));
    }
}

/// The byte histogram accounts for every byte exactly once: its counts add
/// up to the file size, so the byte frequencies add up to 1.
pub proof fn lemma_histogram_sums_to_size(f: &ByteLevelFeature, data: Seq<u8>)
    requires
        is_byte_level_of(f, data),
    ensures
        seq_sum(f.counts@) == data.len(),
        seq_sum(f.counts@) == f.total,
{
    lemma_sum_matches(f.counts@, data, 256);
    assert(f.counts@.take(256) == f.counts@);
    lemma_count_below_all(data);
}

} // verus!
