//! Conversion of an internal conversation identifier to its externally
//! link-able form.
//!
//! Large-group conversations are identified internally by a negative
//! number whose decimal digits start with `100`; the externally visible
//! identifier is what remains once that prefix is stripped.  Identifiers
//! above `-100` and identifiers whose leading digits are not `100` are
//! passed through unchanged.  The conversion is pure and total: it never
//! panics, for any 64-bit input including the minimum value.

use vstd::prelude::*;

verus! {

/// Ten to the power `k`.
pub open spec fn pow10(k: nat) -> nat
    decreases k,
{
    if k == 0 {
        1
    } else {
        10 * pow10((k - 1) as nat)
    }
}

/// The decimal digits of `n` are `1`, `0`, `0` followed by exactly `k`
/// further digits.
pub open spec fn has_100_prefix(n: nat, k: nat) -> bool {
    100 * pow10(k) <= n < 101 * pow10(k)
}

/// What the conversion returns: the input itself, unless it is at most
/// `-100` and the decimal digits of its absolute value start with `100`,
/// in which case the remaining lower-order digits are returned as a
/// non-negative number.
pub open spec fn to_display_id_spec(id: int) -> int {
    if id > -100 {
        id
    } else {
        let abs = (-id) as nat;
        if exists|k: nat| has_100_prefix(abs, k) {
            let k = choose|k: nat| has_100_prefix(abs, k);
            abs - 100 * pow10(k)
        } else {
            id
        }
    }
}

proof fn lemma_pow10_positive(k: nat)
    ensures
        pow10(k) >= 1,
    decreases k,
{
    if k > 0 {
        lemma_pow10_positive((k - 1) as nat);
    }
}

proof fn lemma_pow10_increases(k1: nat, k2: nat)
    requires
        k1 <= k2,
    ensures
        pow10(k1) <= pow10(k2),
    decreases k2,
{
    if k1 < k2 {
        lemma_pow10_increases(k1, (k2 - 1) as nat);
        lemma_pow10_positive((k2 - 1) as nat);
    }
}

/// Only one digit count fits a `100` prefix: the ranges for different
/// `k` are disjoint.
proof fn lemma_100_prefix_unique(n: nat, k1: nat, k2: nat)
    requires
        has_100_prefix(n, k1),
        has_100_prefix(n, k2),
    ensures
        k1 == k2,
{
    if k1 < k2 {
        lemma_pow10_increases((k1 + 1) as nat, k2);
        assert(pow10((k1 + 1) as nat) == 10 * pow10(k1));
        assert(100 * pow10(k2) >= 100 * (10 * pow10(k1))) by (nonlinear_arith)
            requires
                pow10(k2) >= 10 * pow10(k1),
        ;
    } else if k2 < k1 {
        lemma_pow10_increases((k2 + 1) as nat, k1);
        assert(pow10((k2 + 1) as nat) == 10 * pow10(k2));
        assert(100 * pow10(k1) >= 100 * (10 * pow10(k2))) by (nonlinear_arith)
            requires
                pow10(k1) >= 10 * pow10(k2),
        ;
    }
}

/// A number lies under exactly one bracketing power of ten.
proof fn lemma_power_bracket_unique(n: nat, j1: nat, j2: nat)
    requires
        pow10(j1) <= n < pow10((j1 + 1) as nat),
        pow10(j2) <= n < pow10((j2 + 1) as nat),
    ensures
        j1 == j2,
{
    if j1 < j2 {
        lemma_pow10_increases((j1 + 1) as nat, j2);
    } else if j2 < j1 {
        lemma_pow10_increases((j2 + 1) as nat, j1);
    }
}

/// Strips the reserved `100` prefix from a large-group conversation
/// identifier; other identifiers pass through unchanged.
pub fn to_display_id(id: i64) -> (r: i64)
    ensures
        r == to_display_id_spec(id as int),
{
    if id > -100 {
        return id;
    }
    // The absolute value, computed so that even i64::MIN stays in range.
    let abs: u64 = ((-(id + 1)) as u64) + 1;
    assert(abs == -(id as int));

    // Find the largest power of ten that does not exceed abs.
    let mut p: u64 = 1;
    let ghost mut g: nat = 0;
    while p <= abs / 10
        invariant
            abs >= 100,
            p == pow10(g),
            1 <= p <= abs,
        decreases abs - p,
    {
        proof {
            assert((abs / 10) * 10 <= abs && abs < (abs / 10) * 10 + 10) by (nonlinear_arith);
            assert(p * 10 <= (abs / 10) * 10) by (nonlinear_arith)
                requires
                    p <= abs / 10,
            ;
        }
        p = p * 10;
        proof {
            g = g + 1;
        }
    }
    proof {
        assert((abs / 10) * 10 <= abs && abs < (abs / 10) * 10 + 10) by (nonlinear_arith);
        assert(abs < 10 * p) by (nonlinear_arith)
            requires
                p >= abs / 10 + 1,
                (abs / 10) * 10 + 10 > abs,
        ;
        // abs >= 100, so the bracketing power has at least two trailing digits.
        if g < 2 {
            lemma_pow10_increases((g + 1) as nat, 2);
            assert(pow10(0) == 1);
            assert(pow10(1) == 10);
            assert(pow10(2) == 100);
            assert(false);
        }
    }

    let divisor: u64 = p / 100;
    proof {
        assert(pow10(g) == 10 * pow10((g - 1) as nat));
        assert(pow10((g - 1) as nat) == 10 * pow10((g - 2) as nat));
        lemma_pow10_positive((g - 2) as nat);
        assert(divisor == pow10((g - 2) as nat)) by (nonlinear_arith)
            requires
                divisor == p / 100,
                p == 100 * pow10((g - 2) as nat),
                pow10((g - 2) as nat) >= 1,
        ;
        assert(divisor * (abs / divisor) + abs % divisor == abs && abs % divisor < divisor)
            by (nonlinear_arith)
            requires
                divisor >= 1,
        ;
    }

    if abs / divisor == 100 {
        proof {
            let abs_n: nat = (-(id as int)) as nat;
            assert(abs_n == abs as nat);
            assert(100 * divisor <= abs && abs < 101 * divisor) by (nonlinear_arith)
                requires
                    divisor * (abs / divisor) + abs % divisor == abs,
                    abs % divisor < divisor,
                    abs / divisor == 100,
            ;
            assert(has_100_prefix(abs_n, (g - 2) as nat));
            let k = choose|k: nat| has_100_prefix(abs_n, k);
            lemma_100_prefix_unique(abs_n, k, (g - 2) as nat);
            assert(abs % divisor == abs - 100 * divisor) by (nonlinear_arith)
                requires
                    divisor * (abs / divisor) + abs % divisor == abs,
                    abs / divisor == 100,
            ;
        }
        return (abs % divisor) as i64;
    }

    proof {
        let abs_n: nat = (-(id as int)) as nat;
        assert(abs_n == abs as nat);
        if exists|k: nat| has_100_prefix(abs_n, k) {
            let k = choose|k: nat| has_100_prefix(abs_n, k);
            // A 100-prefixed number with k lower digits lies between
            // pow10(k + 2) and pow10(k + 3).
            assert(pow10((k + 1) as nat) == 10 * pow10(k));
            assert(pow10((k + 2) as nat) == 10 * pow10((k + 1) as nat));
            assert(pow10((k + 3) as nat) == 10 * pow10((k + 2) as nat));
            lemma_pow10_positive(k);
            assert(101 * pow10(k) <= 1000 * pow10(k)) by (nonlinear_arith)
                requires
                    pow10(k) >= 1,
            ;
            lemma_power_bracket_unique(abs as nat, (k + 2) as nat, g);
            // Then divisor == pow10(k) and the quotient is exactly 100.
            assert(abs / divisor == 100) by (nonlinear_arith)
                requires
                    divisor >= 1,
                    100 * divisor <= abs < 101 * divisor,
            ;
            assert(false);
        }
    }
    id
}

} // verus!
