//! SHA-1 over sampled ranges of a file: the whole file when it is under
//! 30 MiB, else its first 10 MiB, the 10 MiB around its middle and its last
//! 10 MiB; then the file size.
use vstd::prelude::*;
use crate::packet::be64;

verus! {

// ---------------------------------------------------------------------------
// The SHA-1 hasher of the `sha1` crate.
// ---------------------------------------------------------------------------

/// A running SHA-1 computation of the `sha1` crate.
#[verifier::external_body]
pub struct Sha1Hasher {
    inner: sha1::Sha1,
}

/// The bytes a `Sha1Hasher` has absorbed so far.
pub uninterp spec fn sha1_absorbed(hasher: Sha1Hasher) -> Seq<u8>;

/// The SHA-1 digest of `data`.
pub uninterp spec fn sha1_digest(data: Seq<u8>) -> Seq<u8>;

/// Calls `sha1::Sha1::new` (`Digest::new`): a hasher that has absorbed nothing.
#[verifier::external_body]
pub(crate) fn sha1_new() -> (r: Sha1Hasher)
    ensures
        sha1_absorbed(r) == Seq::<u8>::empty(),
{
    Sha1Hasher { inner: <sha1::Sha1 as sha1::Digest>::new() }
}

/// Calls `Digest::update` on the hasher: it absorbs `data` after what it
/// absorbed before.
#[verifier::external_body]
pub(crate) fn sha1_update(hasher: &mut Sha1Hasher, data: &[u8])
    ensures
        sha1_absorbed(*final(hasher)) == sha1_absorbed(*old(hasher)) + data@,
{
    sha1::Digest::update(&mut hasher.inner, data);
}

/// Calls `Digest::finalize`: the 20-byte SHA-1 digest of all absorbed bytes.
#[verifier::external_body]
pub(crate) fn sha1_finalize(hasher: Sha1Hasher) -> (r: [u8; 20])
    ensures
        r@ == sha1_digest(sha1_absorbed(hasher)),
{
    sha1::Digest::finalize(hasher.inner).into()
}

/// Little-endian bytes of a 64-bit value.
pub open spec fn le64(v: u64) -> Seq<u8> {
    be64(v).reverse()
}

/// Calls `u64::to_ne_bytes`: the value's bytes in the machine's byte order,
/// which is little or big endian.
#[verifier::external_body]
fn u64_to_ne_bytes(v: u64) -> (r: [u8; 8])
    ensures
        r@ == le64(v) || r@ == be64(v),
{
    v.to_ne_bytes()
}

// ---------------------------------------------------------------------------
// Ranges
// ---------------------------------------------------------------------------

/// Files of this size and above are sampled.
pub const SAMPLE_THRESHOLD: u64 = 31457280;

/// The inclusive byte ranges that are hashed for a file of `file_size` bytes.
pub open spec fn sample_ranges(file_size: u64) -> Seq<(u64, u64)> {
    if file_size < SAMPLE_THRESHOLD {
        seq![(0u64, file_size)]
    } else {
        seq![
            (0u64, 10485759u64),
            ((file_size / 2 - 5242880) as u64, (file_size / 2 + 5242879) as u64),
            ((file_size - 10485760) as u64, (file_size - 1) as u64),
        ]
    }
}

/// The part of `data`, which stands at `start` in the file, that lies in
/// the inclusive range `r`.
pub open spec fn range_part(start: int, data: Seq<u8>, r: (u64, u64)) -> Seq<u8> {
    let from = if start >= r.0 { start } else { r.0 as int };
    let to = if start + data.len() <= r.1 + 1 { start + data.len() } else { r.1 + 1 };
    if from < to {
        data.subrange(from - start, to - start)
    } else {
        Seq::empty()
    }
}

/// What the hasher absorbs from `data`, standing at `start` in the file,
/// for the first `i` ranges: their parts, range by range.
pub open spec fn sampled_first(ranges: Seq<(u64, u64)>, start: int, data: Seq<u8>, i: int) -> Seq<
    u8,
>
    decreases i,
{
    if i <= 0 {
        Seq::empty()
    } else {
        sampled_first(ranges, start, data, i - 1) + range_part(start, data, ranges[i - 1])
    }
}

/// What the hasher absorbs from `data`, standing at `start` in the file:
/// its part in each range, range by range.
pub open spec fn sampled(ranges: Seq<(u64, u64)>, start: int, data: Seq<u8>) -> Seq<u8> {
    sampled_first(ranges, start, data, ranges.len() as int)
}

/// Ranges in increasing order, apart from each other.
pub open spec fn ordered(ranges: Seq<(u64, u64)>) -> bool {
    forall|i: int, j: int| 0 <= i < j < ranges.len() ==> ranges[i].1 < ranges[j].0
}

// ---------------------------------------------------------------------------
// The hasher
// ---------------------------------------------------------------------------

/// SHA-1 over the sampled ranges of a file fed in chunks, then its size.
pub struct TriSha1 {
    hasher: Sha1Hasher,
    offset: u64,
    file_size: u64,
    ranges: Vec<(u64, u64)>,
}

impl TriSha1 {
    /// The sampled ranges are those of the file size.
    pub closed spec fn wf(self) -> bool {
        self.ranges@ == sample_ranges(self.file_size)
    }

    /// The size of the file being hashed.
    pub closed spec fn file_size(self) -> u64 {
        self.file_size
    }

    /// How many bytes of the file have been fed so far.
    pub closed spec fn offset(self) -> u64 {
        self.offset
    }

    /// The bytes hashed so far.
    pub closed spec fn absorbed(self) -> Seq<u8> {
        sha1_absorbed(self.hasher)
    }

    pub fn new(file_size: u64) -> (r: Self)
        ensures
            r.wf(),
            r.file_size() == file_size,
            r.offset() == 0,
            r.absorbed() == Seq::<u8>::empty(),
    {
        let half = file_size >> 1;
        assert(file_size >> 1 == file_size / 2) by (bit_vector);
        let ranges = if file_size < SAMPLE_THRESHOLD {
            vec![(0u64, file_size)]
        } else {
            vec![
                (0u64, 10485759u64),
                (half - 5242880, half + 5242879),
                (file_size - 10485760, file_size - 1),
            ]
        };
        proof {
            assert(ranges@ =~= sample_ranges(file_size));
        }
        TriSha1 { hasher: sha1_new(), offset: 0, file_size, ranges }
    }

    /// Feeds the next chunk of the file: its parts that lie in the sampled
    /// ranges are hashed, range by range.
    pub fn update(&mut self, data: &[u8])
        requires
            old(self).wf(),
            old(self).offset() + data@.len() <= u64::MAX,
        ensures
            final(self).wf(),
            final(self).file_size() == old(self).file_size(),
            final(self).offset() == old(self).offset() + data@.len(),
            final(self).absorbed() == old(self).absorbed() + sampled(
                sample_ranges(old(self).file_size()),
                old(self).offset() as int,
                data@,
            ),
    {
        let start = self.offset;
        let end = start + data.len() as u64;
        let n = self.ranges.len();
        let ghost rs = self.ranges@;
        let mut i: usize = 0;
        while i < n
            invariant
                n == rs.len(),
                rs == sample_ranges(self.file_size),
                self.ranges@ == rs,
                self.file_size == old(self).file_size,
                self.offset == old(self).offset,
                start == self.offset,
                end == start + data@.len(),
                0 <= i <= n,
                sha1_absorbed(self.hasher) == sha1_absorbed(old(self).hasher) + sampled_first(
                    rs,
                    start as int,
                    data@,
                    i as int,
                ),
            decreases n - i,
        {
            let (rs_i, re_i) = self.ranges[i];
            assert(re_i < u64::MAX);
            let dl = data.len();
            let from = if start >= rs_i { start } else { rs_i };
            let to = if end <= re_i + 1 { end } else { re_i + 1 };
            if from < to {
                let slice = vstd::slice::slice_subrange(data, (from - start) as usize, (to - start) as usize);
                sha1_update(&mut self.hasher, slice);
            } else {
                assert(sampled_first(rs, start as int, data@, i + 1) =~= sampled_first(
                    rs,
                    start as int,
                    data@,
                    i as int,
                ));
            }
            i = i + 1;
        }
        self.offset = end;
    }

    /// Hashes the file size, in the machine's byte order, and returns the
    /// digest.
    pub fn finalize(self) -> (r: [u8; 20])
        ensures
            r@ == sha1_digest(self.absorbed() + le64(self.file_size())) || r@ == sha1_digest(
                self.absorbed() + be64(self.file_size()),
            ),
    {
        let mut this = self;
        let size_bytes = u64_to_ne_bytes(this.file_size);
        sha1_update(&mut this.hasher, &size_bytes);
        sha1_finalize(this.hasher)
    }
}

// ---------------------------------------------------------------------------
// Laws
// ---------------------------------------------------------------------------

/// The part of two consecutive chunks in one range is the part of the first
/// chunk, then that of the second.
pub proof fn lemma_range_part_split(start: int, a: Seq<u8>, b: Seq<u8>, r: (u64, u64))
    ensures
        range_part(start, a + b, r) == range_part(start, a, r) + range_part(start + a.len(), b, r),
{
    let ab = a + b;
    let pa = range_part(start, a, r);
    let pb = range_part(start + a.len(), b, r);
    let p = range_part(start, ab, r);
    assert(p =~= pa + pb);
}

/// When a chunk that starts at `start` has a part in range `i`, a chunk that
/// starts after it has no part in any earlier range.
proof fn lemma_later_chunk_misses_earlier_ranges(
    ranges: Seq<(u64, u64)>,
    start: int,
    a: Seq<u8>,
    b: Seq<u8>,
    i: int,
    j: int,
)
    requires
        ordered(ranges),
        0 <= j <= i < ranges.len(),
        range_part(start, a, ranges[i]).len() > 0,
    ensures
        sampled_first(ranges, start + a.len(), b, j) == Seq::<u8>::empty(),
    decreases j,
{
    if j > 0 {
        lemma_later_chunk_misses_earlier_ranges(ranges, start, a, b, i, j - 1);
        assert(ranges[j - 1].1 < ranges[i].0);
        assert(range_part(start + a.len(), b, ranges[j - 1]) =~= Seq::<u8>::empty());
        assert(sampled_first(ranges, start + a.len(), b, j) =~= Seq::<u8>::empty());
    }
}

proof fn lemma_sampled_first_concat(
    ranges: Seq<(u64, u64)>,
    start: int,
    a: Seq<u8>,
    b: Seq<u8>,
    i: int,
)
    requires
        ordered(ranges),
        0 <= i <= ranges.len(),
    ensures
        sampled_first(ranges, start, a + b, i) == sampled_first(ranges, start, a, i)
            + sampled_first(ranges, start + a.len(), b, i),
    decreases i,
{
    if i > 0 {
        lemma_sampled_first_concat(ranges, start, a, b, i - 1);
        lemma_range_part_split(start, a, b, ranges[i - 1]);
        let sa = sampled_first(ranges, start, a, i - 1);
        let sb = sampled_first(ranges, start + a.len(), b, i - 1);
        let pa = range_part(start, a, ranges[i - 1]);
        let pb = range_part(start + a.len(), b, ranges[i - 1]);
        if pa.len() > 0 {
            lemma_later_chunk_misses_earlier_ranges(ranges, start, a, b, i - 1, i - 1);
            assert(sb =~= Seq::<u8>::empty());
        } else {
            assert(pa =~= Seq::<u8>::empty());
        }
        assert(sa + sb + (pa + pb) =~= sa + pa + (sb + pb));
    }
}

/// The sampled ranges of any file size are in increasing order, apart from
/// each other.
pub proof fn lemma_sample_ranges_ordered(file_size: u64)
    ensures
        ordered(sample_ranges(file_size)),
{
}

/// What is hashed of a file does not depend on how it is cut into chunks:
/// feeding `a` and then `b` hashes the same bytes as feeding `a + b` at once.
pub proof fn law_chunking_is_irrelevant(file_size: u64, start: int, a: Seq<u8>, b: Seq<u8>)
    ensures
        sampled(sample_ranges(file_size), start, a) + sampled(
            sample_ranges(file_size),
            start + a.len(),
            b,
        ) == sampled(sample_ranges(file_size), start, a + b),
{
    let rs = sample_ranges(file_size);
    lemma_sample_ranges_ordered(file_size);
    lemma_sampled_first_concat(rs, start, a, b, rs.len() as int);
}

/// A file under the threshold, fed whole, is hashed whole.
pub proof fn law_small_file_hashed_whole(data: Seq<u8>)
    requires
        data.len() < SAMPLE_THRESHOLD,
    ensures
        sampled(sample_ranges(data.len() as u64), 0, data) == data,
{
    let rs = sample_ranges(data.len() as u64);
    assert(range_part(0, data, rs[0]) =~= data);
    assert(sampled_first(rs, 0, data, 0) =~= Seq::<u8>::empty());
    assert(sampled_first(rs, 0, data, 1) == sampled_first(rs, 0, data, 0) + range_part(0, data, rs[0]));
    assert(sampled_first(rs, 0, data, 1) =~= data);
}

/// A larger file, fed whole, is hashed over its first 10 MiB, the 10 MiB
/// around its middle and its last 10 MiB.
pub proof fn law_large_file_hashed_sampled(data: Seq<u8>)
    requires
        SAMPLE_THRESHOLD <= data.len() <= u64::MAX,
    ensures
        ({
            let n = data.len() as int;
            let half = n / 2;
            sampled(sample_ranges(data.len() as u64), 0, data) == data.subrange(0, 10485760)
                + data.subrange(half - 5242880, half + 5242880) + data.subrange(n - 10485760, n)
        }),
{
    let rs = sample_ranges(data.len() as u64);
    let n = data.len() as int;
    let half = n / 2;
    assert(range_part(0, data, rs[0]) =~= data.subrange(0, 10485760));
    assert(range_part(0, data, rs[1]) =~= data.subrange(half - 5242880, half + 5242880));
    assert(range_part(0, data, rs[2]) =~= data.subrange(n - 10485760, n));
    assert(sampled_first(rs, 0, data, 0) =~= Seq::<u8>::empty());
    assert(sampled_first(rs, 0, data, 1) =~= range_part(0, data, rs[0]));
    assert(sampled_first(rs, 0, data, 2) == sampled_first(rs, 0, data, 1) + range_part(0, data, rs[1]));
    assert(sampled_first(rs, 0, data, 3) == sampled_first(rs, 0, data, 2) + range_part(0, data, rs[2]));
    assert(sampled_first(rs, 0, data, 3) =~= data.subrange(0, 10485760) + data.subrange(
        half - 5242880,
        half + 5242880,
    ) + data.subrange(n - 10485760, n));
}

} // verus!
