//! A thin adapter around zstd compression: single-shot, in-memory, lossless
//! transforms over byte buffers.

use vstd::prelude::*;

verus! {

/// The zstd compression level every call of this library makes: a moderate
/// speed/ratio trade-off rather than the maximum ratio.
pub const DEFAULT_LEVEL: i32 = 3;

/// The byte sequence that zstd emits for `data` at compression level `level`.
/// It is a fixed function of the two: the frames zstd writes carry no
/// timestamp and no randomness, so equal input and level give equal output.
pub uninterp spec fn zstd_frame_of(level: int, data: Seq<u8>) -> Seq<u8>;

/// Relies on `zstd::stream::copy_encode`: at a level within the accepted
/// range it emits one zstd frame for the bytes read from `data`, a
/// deterministic function of those bytes and of the level; and since it only
/// reads from and writes to memory here, it has no failure path left, so
/// success is owed.
#[verifier::external_body]
fn zstd_encode(data: &[u8], level: i32) -> (r: Option<Vec<u8>>)
    requires
        1 <= level <= 22,
    ensures
        r is Some,
        r matches Some(v) ==> v@ == zstd_frame_of(level as int, data@),
{
    let mut out: Vec<u8> = Vec::new();
    match zstd::stream::copy_encode(std::io::Cursor::new(data), &mut out, level) {
        Ok(()) => Some(out),
        Err(_) => None,
    }
}

/// What a single-shot zstd decode of `input` yields: the decoded bytes where
/// the decoder accepts `input`, and `None` where it rejects it
/// as corrupt, truncated or of a foreign format. A fixed function of the
/// input bytes alone: the decoder reads until the stream's logical end, with
/// no dictionary and the default window limit.
pub uninterp spec fn zstd_decoding_of(input: Seq<u8>) -> Option<Seq<u8>>;

/// Holds of a decoder outcome `r` on input `input` when zstd frames are
/// restored faithfully: if `input` is the frame of some byte sequence at some
/// level, the outcome is exactly that byte sequence.
pub open spec fn restores_frames(input: Seq<u8>, r: Option<Vec<u8>>) -> bool {
    forall|level: int, x: Seq<u8>|
        input == #[trigger] zstd_frame_of(level, x) ==> (r matches Some(v) && v@ == x)
}

/// Holds when the outcome `r` is exactly what decoding `input` yields:
/// success with the decoded bytes where the decoder accepts, failure where
/// it rejects.
pub open spec fn matches_decoding(input: Seq<u8>, r: Option<Vec<u8>>) -> bool {
    match r {
        Some(v) => zstd_decoding_of(input) == Some(v@),
        None => zstd_decoding_of(input) is None,
    }
}

/// Relies on `zstd::stream::copy_decode`: its outcome is a function of the
/// input bytes alone. Decoding a frame that zstd produced
/// succeeds and restores exactly the bytes the frame was made from, whatever
/// level wrote it; input the decoder rejects is reported as `None`. The
/// capacity only pre-sizes the output buffer; the decoder reads until the
/// frame's logical end.
#[verifier::external_body]
fn zstd_decode(data: &[u8], capacity: usize) -> (r: Option<Vec<u8>>)
    ensures
        restores_frames(data@, r),
        r matches Some(v) ==> zstd_decoding_of(data@) == Some(v@),
        r is None ==> zstd_decoding_of(data@) is None,
{
    let mut out: Vec<u8> = Vec::with_capacity(capacity);
    match zstd::stream::copy_decode(std::io::Cursor::new(data), &mut out) {
        Ok(()) => Some(out),
        Err(_) => None,
    }
}

/// Applies zstd compression and decompression at a fixed moderate level.
pub struct ZstdCompressor;

impl ZstdCompressor {
    /// Compresses `data` into a single zstd frame at `DEFAULT_LEVEL`.
    /// In-memory encoding at a valid level cannot fail, so success is owed
    /// on every input, the empty one included; the result carrier stays a
    /// value, not an abort, so a caller chooses what a failure would mean.
    pub fn compress(data: &[u8]) -> (r: Option<Vec<u8>>)
        ensures
            r matches Some(v) && v@ == zstd_frame_of(DEFAULT_LEVEL as int, data@),
    {
        zstd_encode(data, DEFAULT_LEVEL)
    }

    /// Decompresses a zstd frame. `original_size` is an advisory hint that
    /// only pre-sizes the output buffer: the decoded length comes from the
    /// frame itself, never from the hint. On any frame that `compress`
    /// produced — at any level, and whatever the hint — the call succeeds and
    /// returns the exact bytes the frame was made from. On any other input
    /// the outcome is exactly what the decoder yields: `None` where it rejects
    /// the bytes as corrupt, truncated or foreign, the decoded bytes where it
    /// accepts them (zstd accepts more than this library's frames, such as
    /// skippable frames, so rejection of everything else would be too strong
    /// a claim).
    pub fn decompress(compressed_data: &[u8], original_size: usize) -> (r: Option<Vec<u8>>)
        ensures
            restores_frames(compressed_data@, r),
            matches_decoding(compressed_data@, r),
    {
        zstd_decode(compressed_data, original_size)
    }

    /// Compresses `data` and decompresses the result. Neither step can fail,
    /// and the pair holds the compressed frame together with the restored
    /// bytes, which equal `data` exactly: the round-trip law, proved for
    /// every byte sequence.
    pub fn round_trip(data: &[u8]) -> (r: Option<(Vec<u8>, Vec<u8>)>)
        ensures
            r matches Some(p) && p.0@ == zstd_frame_of(DEFAULT_LEVEL as int, data@)
                && p.1@ == data@,
    {
        match Self::compress(data) {
            Some(compressed) => {
                let restored = Self::decompress(compressed.as_slice(), data.len());
                match restored {
                    Some(original) => Some((compressed, original)),
                    None => None,
                }
            },
            None => None,
        }
    }
}

/// Determinism law: compressing equal inputs with equal parameters yields
/// identical compressed output. `compress` pins its result to
/// `zstd_frame_of`, a function of the level and the bytes alone, so two runs
/// over the same bytes agree.
pub proof fn lemma_compress_deterministic(level: int, x: Seq<u8>, y: Seq<u8>)
    requires
        x == y,
    ensures
        zstd_frame_of(level, x) == zstd_frame_of(level, y),
{
}

} // verus!
