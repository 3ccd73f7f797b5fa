//! Hamming distance between 64-bit fingerprints.
//!
//! A fingerprint is an opaque 64-bit pattern; the similarity metric is the
//! number of differing bits, i.e. the population count of the XOR of the
//! two patterns.  The distance therefore always lies between 0 and 64.

use vstd::prelude::*;

verus! {

/// Whether bit `i` of `x` is set.
pub open spec fn bit_set(x: u64, i: u64) -> bool {
    (x >> i) & 1u64 == 1u64
}

/// Number of set bits of `x` among the bits strictly below position `n`.
pub open spec fn count_bits_below(x: u64, n: int) -> nat
    decreases n,
{
    if n <= 0 {
        0
    } else {
        count_bits_below(x, n - 1) + if bit_set(x, (n - 1) as u64) {
            1nat
        } else {
            0nat
        }
    }
}

/// The Hamming distance between two fingerprints: how many of the 64 bit
/// positions differ.
pub open spec fn hamming(a: i64, b: i64) -> nat {
    count_bits_below((a ^ b) as u64, 64)
}

/// No more than `n` bits lie below position `n`.
proof fn lemma_count_bits_below_bound(x: u64, n: int)
    ensures
        count_bits_below(x, n) <= if n <= 0 {
            0int
        } else {
            n
        },
    decreases n,
{
    if n > 0 {
        lemma_count_bits_below_bound(x, n - 1);
    }
}

/// The distance is symmetric in its two arguments.
pub proof fn lemma_hamming_symmetric(a: i64, b: i64)
    ensures
        hamming(a, b) == hamming(b, a),
{
    assert((a ^ b) as u64 == (b ^ a) as u64) by (bit_vector);
}

/// A fingerprint is at distance 0 from itself.
pub proof fn lemma_hamming_self(a: i64)
    ensures
        hamming(a, a) == 0,
{
    assert((a ^ a) as u64 == 0u64) by (bit_vector);
    lemma_count_zero_bits_below(0u64, 64);
}

/// Zero has no set bits below any position.
proof fn lemma_count_zero_bits_below(x: u64, n: int)
    requires
        x == 0u64,
    ensures
        count_bits_below(x, n) == 0,
    decreases n,
{
    if n > 0 {
        lemma_count_zero_bits_below(x, n - 1);
        let j: u64 = (n - 1) as u64;
        assert(!bit_set(0u64, j)) by (bit_vector);
    }
}

/// Computes the Hamming distance between the fingerprints `a` and `b`.
pub fn hamming_distance(a: i64, b: i64) -> (d: u32)
    ensures
        d == hamming(a, b),
        d <= 64,
{
    let x: u64 = #[verifier::truncate] ((a ^ b) as u64);
    let mut d: u32 = 0;
    let mut i: u64 = 0;
    while i < 64
        invariant
            0 <= i <= 64,
            d <= i,
            d == count_bits_below(x, i as int),
        decreases 64 - i,
    {
        let bit: u64 = (x >> i) & 1u64;
        assert((x >> i) & 1u64 <= 1u64) by (bit_vector);
        if bit == 1 {
            d = d + 1;
        }
        i = i + 1;
    }
    proof {
        lemma_count_bits_below_bound(x, 64);
    }
    d
}

} // verus!
