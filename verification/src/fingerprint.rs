//! Turning raw image bytes into a 64-bit perceptual fingerprint.
//!
//! The container format is sniffed from the bytes themselves; bytes
//! that decode as no recognised image are reported as unsupported, a
//! non-fatal per-item failure.  The fingerprint is a pure function of
//! the bytes: visually near-identical images land at small Hamming
//! distance, visually distinct ones far apart.

use vstd::prelude::*;

verus! {

/// Failure to fingerprint a byte sequence.
#[derive(Debug, Clone, Copy, PartialEq, Eq, Structural)]
pub enum ExtractionError {
    /// The bytes decode as no recognised image format.
    UnsupportedOrCorrupt,
}

/// The perceptual fingerprint of the image encoded by `b`: `None` when
/// the bytes decode as no recognised image, otherwise the 64-bit hash.
/// The fingerprint depends on the bytes alone.
pub uninterp spec fn phash_of(b: Seq<u8>) -> Option<i64>;

/// Relies on `image::load_from_memory` (format detection and decoding,
/// deterministic in the bytes) and on `img_hash`'s hasher under its
/// default configuration (the 8x8 gradient hash, 64 bits, deterministic
/// in the decoded image).  The default configuration always yields 8
/// hash bytes, so the conversion to `i64` cannot fail; a different
/// width would be a programming error and aborts.
#[verifier::external_body]
fn perceptual_hash(bytes: &[u8]) -> (r: Option<i64>)
    ensures
        r == phash_of(bytes@),
{
    let img = match image::load_from_memory(bytes) {
        Ok(i) => i,
        Err(_) => return None,
    };
    let hash = img_hash::HasherConfig::new().to_hasher().hash_image(&img);
    let raw: [u8; 8] = hash.as_bytes().try_into().expect("fingerprint was not 64 bits");
    Some(i64::from_be_bytes(raw))
}

/// What `extract` returns for the bytes `b`.
pub open spec fn extract_spec(b: Seq<u8>) -> Result<i64, ExtractionError> {
    match phash_of(b) {
        Some(f) => Ok(f),
        None => Err(ExtractionError::UnsupportedOrCorrupt),
    }
}

/// Decodes the image held in `bytes` and produces its 64-bit
/// perceptual fingerprint; bytes of no recognised image format fail
/// with `UnsupportedOrCorrupt`.  Pure: no side effects.
pub fn extract(bytes: &[u8]) -> (r: Result<i64, ExtractionError>)
    ensures
        r == extract_spec(bytes@),
{
    match perceptual_hash(bytes) {
        Some(f) => Ok(f),
        None => Err(ExtractionError::UnsupportedOrCorrupt),
    }
}

/// Determinism: the fingerprint is a function of the image bytes, so
/// two extractions of equal bytes return the same result.
pub proof fn lemma_extract_deterministic(b1: Seq<u8>, b2: Seq<u8>)
    requires
        b1 == b2,
    ensures
        extract_spec(b1) == extract_spec(b2),
{
}

} // verus!
