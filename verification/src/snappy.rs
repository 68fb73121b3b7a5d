//! The companion decompression codec for fixtures: every fixture file is
//! stored compressed, and the harness decompresses it before use. The codec
//! itself is an external capability; the library states only that it is a
//! pure function of the bytes.

use vstd::prelude::*;

verus! {

/// The decompression codec's error type, carried through opaquely.
#[verifier::external_type_specification]
#[verifier::external_body]
pub struct ExSnapError(snap::Error);

/// What raw-format decompression yields for given bytes: the payload, or
/// nothing when the bytes are not valid compressed data. A pure function of
/// the bytes alone.
pub uninterp spec fn snappy_decompressed(raw: Seq<u8>) -> Option<Seq<u8>>;

/// Relies on snap::raw::Decoder::decompress_vec: raw-format decompression,
/// deterministic in the input bytes, returning the decompressed payload on
/// conforming input and an error otherwise.
#[verifier::external_body]
pub fn decode_snappy(raw_bytes: &[u8]) -> (r: Result<Vec<u8>, snap::Error>)
    ensures
        match snappy_decompressed(raw_bytes@) {
            Option::Some(v) => r is Ok && r->Ok_0@ == v,
            Option::None => r is Err,
        },
{
    let mut decoder = snap::raw::Decoder::new();
    decoder.decompress_vec(raw_bytes)
}

/// A fixture file whose contents are not valid compressed data.
#[derive(Clone, Copy, PartialEq, Eq, Structural, Debug)]
pub enum FixtureError {
    InvalidCompression,
}

/// Decompresses one fixture's bytes, mapping the codec's error into the
/// harness's own: the run aborts on a fixture that cannot be read.
pub fn decompress_fixture(raw_bytes: &[u8]) -> (r: Result<Vec<u8>, FixtureError>)
    ensures
        match snappy_decompressed(raw_bytes@) {
            Option::Some(v) => r is Ok && r->Ok_0@ == v,
            Option::None => r is Err && r->Err_0 == FixtureError::InvalidCompression,
        },
{
    match decode_snappy(raw_bytes) {
        Result::Ok(v) => Result::Ok(v),
        Result::Err(_) => Result::Err(FixtureError::InvalidCompression),
    }
}

} // verus!
