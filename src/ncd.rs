//! Normalized compression distance (NCD).
//!
//! `NCD(x, y) = (C(xy) - min(C(x), C(y))) / max(C(x), C(y))`, clamped to
//! `[0, max_score]`, where `C` is the size of a zstd frame. The score is kept
//! as an exact fraction of two sizes, so nothing is rounded.
use vstd::prelude::*;
use vstd::string::StringSliceAdditionalSpecFns;

verus! {

/// A non-negative fraction `num / den`.
#[derive(Clone, Copy, Debug, PartialEq, Eq, Structural)]
pub struct Ratio {
    pub num: usize,
    pub den: usize,
}

impl Ratio {
    pub open spec fn wf(&self) -> bool {
        self.den > 0
    }

    /// `self <= other`, compared without division.
    pub open spec fn le(&self, other: Ratio) -> bool {
        self.num * other.den <= other.num * self.den
    }
}

/// Compression level used when none is given (zstd's speed/ratio balance).
pub const DEFAULT_LEVEL: i32 = 3;

/// Settings fixed for the three compressions of one computation.
#[derive(Clone, Copy, Debug, PartialEq, Eq, Structural)]
pub struct NcdConfig {
    /// zstd compression level.
    pub level: i32,
    /// Upper clamp of the score (three halves by default: short inputs can
    /// overshoot one through frame overhead).
    pub max_score: Ratio,
}

impl NcdConfig {
    pub open spec fn wf(&self) -> bool {
        self.max_score.wf()
    }
}

pub open spec fn default_config() -> NcdConfig {
    NcdConfig { level: DEFAULT_LEVEL, max_score: Ratio { num: 3, den: 2 } }
}

impl Default for NcdConfig {
    fn default() -> (r: NcdConfig)
        ensures
            r == default_config(),
    {
        NcdConfig { level: DEFAULT_LEVEL, max_score: Ratio { num: 3, den: 2 } }
    }
}

/// Outcome of one distance computation, with the sizes it was derived from.
#[derive(Clone, Copy, Debug, PartialEq, Eq, Structural)]
pub struct NcdResult {
    /// Clamped distance: near 0 for near-identical texts, near 1 for unrelated ones.
    pub score: Ratio,
    /// Compressed size of text A, in bytes.
    pub size_a: usize,
    /// Compressed size of text B, in bytes.
    pub size_b: usize,
    /// Compressed size of A immediately followed by B, in bytes.
    pub size_combined: usize,
    /// Length of the UTF-8 encoding of text A.
    pub raw_size_a: usize,
    /// Length of the UTF-8 encoding of text B.
    pub raw_size_b: usize,
}

/// The zstd frame that compressing `input` at `level` produces.
pub uninterp spec fn zstd_frame(input: Seq<u8>, level: int) -> Seq<u8>;

/// Relies on `zstd::stream::encode_all`: when it succeeds, its output is the
/// zstd frame of the bytes read at the given level, which depends on the bytes
/// and the level alone. It may fail (an error of the codec), whence `None`.
#[verifier::external_body]
fn zstd_encode(input: &[u8], level: i32) -> (r: Option<Vec<u8>>)
    ensures
        r matches Some(v) ==> v@ == zstd_frame(input@, level as int),
{
    zstd::stream::encode_all(std::io::Cursor::new(input), level).ok()
}

/// A size the compression backend may report for `input`: the frame's size,
/// or the raw length when the codec failed.
pub open spec fn size_outcome(input: Seq<u8>, level: i32, size: usize) -> bool {
    size == zstd_frame(input, level as int).len() || size == input.len()
}

/// The size is that of the frame, the codec having succeeded.
pub open spec fn compressed(input: Seq<u8>, level: i32, size: usize) -> bool {
    size == zstd_frame(input, level as int).len()
}

/// Size reported for an encoding attempt: the encoded length, or the raw
/// length when encoding failed.
pub fn size_or_raw(encoded: &Option<Vec<u8>>, raw_len: usize) -> (r: usize)
    ensures
        r == match encoded {
            Some(v) => v@.len(),
            None => raw_len as nat,
        },
{
    match encoded {
        Some(v) => v.len(),
        None => raw_len,
    }
}

/// Compressed size of `input` at `level`; never fails, falling back to the
/// raw length.
pub fn compressed_size(input: &[u8], level: i32) -> (r: usize)
    ensures
        size_outcome(input@, level, r),
{
    let encoded = zstd_encode(input, level);
    size_or_raw(&encoded, input.len())
}

pub open spec fn min_size(a: usize, b: usize) -> usize {
    if a <= b { a } else { b }
}

pub open spec fn max_size(a: usize, b: usize) -> usize {
    if a <= b { b } else { a }
}

/// The clamped score for the sizes `sa`, `sb` of the two texts and `sc` of
/// their concatenation: 0 when both sizes are zero or the raw score is not
/// positive, `bound` when the raw score reaches it, else the raw score
/// `(sc - min) / max` itself.
pub open spec fn ncd_score_of(sa: usize, sb: usize, sc: usize, bound: Ratio) -> Ratio {
    let lo = min_size(sa, sb);
    let hi = max_size(sa, sb);
    if hi == 0 || sc <= lo {
        Ratio { num: 0, den: 1 }
    } else if (sc - lo) * bound.den >= bound.num * hi {
        bound
    } else {
        Ratio { num: (sc - lo) as usize, den: hi }
    }
}

/// What one computation on the bytes `a` and `b` under `cfg` may return: exact
/// raw sizes, each compressed size an outcome of the backend, and the score
/// that those sizes give.
pub open spec fn ncd_outcome(a: Seq<u8>, b: Seq<u8>, cfg: NcdConfig, r: NcdResult) -> bool {
    &&& r.raw_size_a == a.len()
    &&& r.raw_size_b == b.len()
    &&& size_outcome(a, cfg.level, r.size_a)
    &&& size_outcome(b, cfg.level, r.size_b)
    &&& size_outcome(a + b, cfg.level, r.size_combined)
    &&& r.score == ncd_score_of(r.size_a, r.size_b, r.size_combined, cfg.max_score)
}

/// Every compression of the computation succeeded.
pub open spec fn all_compressed(a: Seq<u8>, b: Seq<u8>, cfg: NcdConfig, r: NcdResult) -> bool {
    &&& compressed(a, cfg.level, r.size_a)
    &&& compressed(b, cfg.level, r.size_b)
    &&& compressed(a + b, cfg.level, r.size_combined)
}

fn product(x: usize, y: usize) -> (r: u128)
    ensures
        r == x * y,
{
    proof {
        assert(x as int * y as int <= u64::MAX as int * u64::MAX as int) by (nonlinear_arith)
            requires
                x as int <= u64::MAX as int,
                y as int <= u64::MAX as int,
                0 <= x as int,
                0 <= y as int,
        ;
    }
    (x as u128) * (y as u128)
}

/// Assembles the result from the three compressed sizes and the two raw
/// lengths.
pub fn ncd_from_sizes(
    size_a: usize,
    size_b: usize,
    size_combined: usize,
    raw_size_a: usize,
    raw_size_b: usize,
    config: &NcdConfig,
) -> (r: NcdResult)
    requires
        config.wf(),
    ensures
        r == (NcdResult {
            score: ncd_score_of(size_a, size_b, size_combined, config.max_score),
            size_a,
            size_b,
            size_combined,
            raw_size_a,
            raw_size_b,
        }),
{
    let lo = if size_a <= size_b { size_a } else { size_b };
    let hi = if size_a <= size_b { size_b } else { size_a };
    let bound = config.max_score;
    let score = if hi == 0 || size_combined <= lo {
        Ratio { num: 0, den: 1 }
    } else if product(size_combined - lo, bound.den) >= product(bound.num, hi) {
        bound
    } else {
        Ratio { num: size_combined - lo, den: hi }
    };
    NcdResult { score, size_a, size_b, size_combined, raw_size_a, raw_size_b }
}

/// The bytes of `a` followed by those of `b`.
fn concat_bytes(a: &[u8], b: &[u8]) -> (r: Vec<u8>)
    ensures
        r@ == a@ + b@,
{
    let mut out: Vec<u8> = Vec::new();
    let mut i: usize = 0;
    while i < a.len()
        invariant
            i <= a@.len(),
            out@ == a@.subrange(0, i as int),
        decreases a@.len() - i,
    {
        out.push(a[i]);
        i = i + 1;
        assert(out@ =~= a@.subrange(0, i as int));
    }
    let mut j: usize = 0;
    while j < b.len()
        invariant
            j <= b@.len(),
            out@ == a@ + b@.subrange(0, j as int),
        decreases b@.len() - j,
    {
        out.push(b[j]);
        j = j + 1;
        assert(out@ =~= a@ + b@.subrange(0, j as int));
    }
    assert(a@ + b@.subrange(0, b@.len() as int) =~= a@ + b@);
    out
}

/// Distance between `text_a` and `text_b` under `config`: three compressions
/// (A, B, then A immediately followed by B) at the configured level, and the
/// clamped score they give. Order matters: A is compressed before B.
pub fn compute_ncd_with(text_a: &str, text_b: &str, config: &NcdConfig) -> (r: NcdResult)
    requires
        config.wf(),
    ensures
        ncd_outcome(text_a.spec_bytes(), text_b.spec_bytes(), *config, r),
{
    let bytes_a = text_a.as_bytes();
    let bytes_b = text_b.as_bytes();
    let size_a = compressed_size(bytes_a, config.level);
    let size_b = compressed_size(bytes_b, config.level);
    let combined = concat_bytes(bytes_a, bytes_b);
    let size_combined = compressed_size(combined.as_slice(), config.level);
    ncd_from_sizes(size_a, size_b, size_combined, bytes_a.len(), bytes_b.len(), config)
}

/// Distance between `text_a` and `text_b` at the default level and clamp.
pub fn compute_ncd(text_a: &str, text_b: &str) -> (r: NcdResult)
    ensures
        ncd_outcome(text_a.spec_bytes(), text_b.spec_bytes(), default_config(), r),
{
    let config = NcdConfig::default();
    compute_ncd_with(text_a, text_b, &config)
}

/// The score alone of `compute_ncd(text_a, text_b)`.
pub fn ncd_score(text_a: &str, text_b: &str) -> (s: Ratio)
    ensures
        exists|r: NcdResult|
            #[trigger] ncd_outcome(text_a.spec_bytes(), text_b.spec_bytes(), default_config(), r)
                && r.score == s,
{
    let r = compute_ncd(text_a, text_b);
    r.score
}

/// The score lies between 0 and the configured clamp, whatever the texts and
/// whatever the backend reported.
pub proof fn lemma_score_within_clamp(a: Seq<u8>, b: Seq<u8>, cfg: NcdConfig, r: NcdResult)
    requires
        cfg.wf(),
        ncd_outcome(a, b, cfg, r),
    ensures
        r.score.wf(),
        r.score.le(cfg.max_score),
{
    let lo = min_size(r.size_a, r.size_b);
    let hi = max_size(r.size_a, r.size_b);
    let bound = cfg.max_score;
    if hi == 0 || r.size_combined <= lo {
        assert(0 * bound.den <= bound.num * 1) by (nonlinear_arith);
    } else if (r.size_combined - lo) * bound.den >= bound.num * hi {
    } else {
        let d = r.size_combined - lo;
        assert(d * bound.den <= bound.num * hi);
    }
}

/// With the default settings, every score lies in `[0, 3/2]`.
pub proof fn lemma_score_bounded(a: Seq<u8>, b: Seq<u8>, r: NcdResult)
    requires
        ncd_outcome(a, b, default_config(), r),
    ensures
        r.score.wf(),
        2 * r.score.num <= 3 * r.score.den,
{
    lemma_score_within_clamp(a, b, default_config(), r);
}

/// Two empty texts score zero, without a division by zero, whenever the three
/// compressions of the (identical, empty) input report the same size.
pub proof fn lemma_empty_texts_score_zero(cfg: NcdConfig, r: NcdResult)
    requires
        ncd_outcome(Seq::empty(), Seq::empty(), cfg, r),
        r.size_a == r.size_b,
        r.size_b == r.size_combined,
    ensures
        r.score == (Ratio { num: 0, den: 1 }),
        r.raw_size_a == 0,
        r.raw_size_b == 0,
{
}

/// Two computations on the same texts and settings in which every compression
/// succeeded give identical results.
pub proof fn lemma_deterministic(a: Seq<u8>, b: Seq<u8>, cfg: NcdConfig, r1: NcdResult, r2: NcdResult)
    requires
        ncd_outcome(a, b, cfg, r1),
        ncd_outcome(a, b, cfg, r2),
        all_compressed(a, b, cfg, r1),
        all_compressed(a, b, cfg, r2),
    ensures
        r1 == r2,
{
}

} // verus!
