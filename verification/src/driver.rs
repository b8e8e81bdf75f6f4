//! One driver pass: generate random data, compress it, and check the round
//! trip, reporting the two lengths whose quotient is the compression ratio.

use crate::compressor::DEFAULT_LEVEL;
use crate::compressor::ZstdCompressor;
use crate::compressor::zstd_frame_of;
use crate::string_generator::StringGenerator;
use crate::string_generator::spec_is_alphanumeric;
use vstd::prelude::*;

verus! {

/// What one driver pass reports: the uncompressed and the compressed length.
pub struct SampleReport {
    pub original_len: usize,
    pub compressed_len: usize,
}

/// Generates `length` random alphanumeric characters, compresses their bytes,
/// decompresses the result, and proves the restored bytes equal the original.
/// No step can fail, so a report is always returned; it carries the two
/// lengths, the compressed one being that of the zstd frame of some
/// alphanumeric byte sequence of the requested length.
pub fn run_sample(length: usize) -> (r: Option<SampleReport>)
    ensures
        r matches Some(rep) && rep.original_len == length && (exists|x: Seq<u8>|
            x.len() == length && (forall|i: int|
                0 <= i < x.len() ==> spec_is_alphanumeric(#[trigger] x[i] as char))
                && rep.compressed_len == zstd_frame_of(DEFAULT_LEVEL as int, x).len()),
{
    let s = StringGenerator::generate_string(length);
    let st: &str = s.as_str();
    proof {
        assert(vstd::utf8::is_ascii_chars(st@));
        vstd::string::is_ascii_spec_bytes(st);
    }
    let bytes: &[u8] = st.as_bytes();
    match ZstdCompressor::round_trip(bytes) {
        Some(pair) => {
            Some(
                SampleReport {
                    original_len: bytes.len(),
                    compressed_len: pair.0.len(),
                },
            )
        },
        None => None,
    }
}

} // verus!
