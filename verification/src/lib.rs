//! Random alphanumeric data generation and zstd compression, with the
//! compress/decompress round trip stated and proved over the adapters'
//! contracts.

pub mod compressor;
pub mod driver;
pub mod string_generator;
