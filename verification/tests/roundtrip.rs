use zstd_roundtrip::compressor::ZstdCompressor;
use zstd_roundtrip::driver::run_sample;
use zstd_roundtrip::string_generator::StringGenerator;

#[test]
fn test_compression_decompression() {
    let original = StringGenerator::generate_string(100_000);
    let compressed = ZstdCompressor::compress(original.as_bytes()).expect("compression failed");
    let decompressed =
        ZstdCompressor::decompress(&compressed, original.len()).expect("decompression failed");
    assert_eq!(original.as_bytes(), decompressed);
}

#[test]
fn test_string_generator() {
    let length = 100;
    let generated = StringGenerator::generate_string(length);
    assert_eq!(generated.len(), length);
    assert!(generated.chars().all(|c| c.is_ascii_alphanumeric()));
}

#[test]
fn empty_input_round_trip() {
    let generated = StringGenerator::generate_string(0);
    assert_eq!(generated.len(), 0);
    let compressed = ZstdCompressor::compress(generated.as_bytes()).expect("compression failed");
    let decompressed = ZstdCompressor::decompress(&compressed, 0).expect("decompression failed");
    assert!(decompressed.is_empty());
}

#[test]
fn ten_thousand_character_sample() {
    let original = StringGenerator::generate_string(10_000);
    let compressed = ZstdCompressor::compress(original.as_bytes()).expect("compression failed");
    let decompressed =
        ZstdCompressor::decompress(&compressed, original.len()).expect("decompression failed");
    assert_eq!(original.as_bytes(), decompressed);
    let ratio = compressed.len() as f64 / original.len() as f64;
    assert!(ratio > 0.0 && ratio < 2.0);
}

#[test]
fn compression_is_deterministic() {
    let input = b"the same fixed input, compressed twice with the same parameters";
    let first = ZstdCompressor::compress(input).expect("compression failed");
    let second = ZstdCompressor::compress(input).expect("compression failed");
    assert_eq!(first, second);
}

#[test]
fn repetitive_input_shrinks() {
    let input = vec![b'a'; 10_000];
    let compressed = ZstdCompressor::compress(&input).expect("compression failed");
    assert!(compressed.len() < input.len());
    let ratio = compressed.len() as f64 / input.len() as f64;
    assert!(ratio.is_finite() && ratio > 0.0);
}

#[test]
fn random_input_ratio_is_finite_and_positive() {
    let original = StringGenerator::generate_string(5_000);
    let compressed = ZstdCompressor::compress(original.as_bytes()).expect("compression failed");
    let ratio = compressed.len() as f64 / original.len() as f64;
    assert!(ratio.is_finite() && ratio > 0.0);
}

#[test]
fn round_trip_restores_input() {
    let input = b"hello world hello world hello world";
    let (compressed, restored) = ZstdCompressor::round_trip(input).expect("round trip failed");
    assert_eq!(restored, input);
    assert_ne!(compressed, restored);
}

#[test]
fn run_sample_reports_lengths() {
    let report = run_sample(500).expect("sample failed");
    assert_eq!(report.original_len, 500);
    assert!(report.compressed_len > 0);
}

#[test]
fn garbage_input_is_rejected() {
    let garbage = b"not a zstd frame at all";
    assert!(ZstdCompressor::decompress(garbage, garbage.len()).is_none());
}

#[test]
fn truncated_frame_is_rejected() {
    let input = b"some bytes worth compressing, repeated and repeated again";
    let compressed = ZstdCompressor::compress(input).expect("compression failed");
    let truncated = &compressed[..compressed.len() / 2];
    assert!(ZstdCompressor::decompress(truncated, input.len()).is_none());
}
