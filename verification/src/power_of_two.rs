//! Powers of two: the mathematical predicate and a constant-time test for it.

use vstd::arithmetic::power2::{lemma2_to64, lemma_pow2_pos, lemma_pow2_unfold, pow2};
use vstd::prelude::*;

verus! {

/// `n` equals `2^k` for some natural number `k`.
pub open spec fn power_of_two(n: int) -> bool {
    exists|k: nat| n == #[trigger] pow2(k)
}

/// One is `2^0`.
pub proof fn lemma_one_is_power_of_two()
    ensures
        power_of_two(1),
{
    lemma2_to64();
    assert(1 == pow2(0));
}

/// No power of two is zero or negative.
pub proof fn lemma_power_of_two_is_positive(n: int)
    requires
        power_of_two(n),
    ensures
        n >= 1,
{
    let k = choose|k: nat| n == #[trigger] pow2(k);
    lemma_pow2_pos(k);
}

/// Above one, the powers of two are exactly the doubles of powers of two.
pub proof fn lemma_power_of_two_halves(n: int)
    requires
        n > 1,
    ensures
        power_of_two(n) <==> (n % 2 == 0 && power_of_two(n / 2)),
{
    if power_of_two(n) {
        let k = choose|k: nat| n == #[trigger] pow2(k);
        if k == 0 {
            lemma2_to64();
        } else {
            lemma_pow2_unfold(k);
            assert(n / 2 == pow2((k - 1) as nat));
        }
    }
    if n % 2 == 0 && power_of_two(n / 2) {
        let j = choose|j: nat| n / 2 == #[trigger] pow2(j);
        lemma_pow2_unfold(j + 1);
        assert(n == pow2(j + 1));
    }
}

/// Clearing the lowest set bit of `n` leaves nothing exactly when halving
/// an even `n` has that property; an odd `n` above one always keeps a bit.
proof fn lemma_single_bit_halves(n: u64)
    requires
        n >= 2,
    ensures
        (n & ((n - 1) as u64)) == 0 <==> (n % 2 == 0 && ((n / 2) & ((n / 2 - 1) as u64)) == 0),
{
    assert((n & ((n - 1) as u64)) == 0 <==> (n % 2 == 0 && ((n / 2) & ((n / 2 - 1) as u64)) == 0))
        by (bit_vector)
        requires
            n >= 2,
    ;
}

/// A positive number is a power of two exactly when it has a single set bit.
proof fn lemma_single_bit(n: u64)
    requires
        n >= 1,
    ensures
        (n & ((n - 1) as u64)) == 0 <==> power_of_two(n as int),
    decreases n,
{
    if n == 1 {
        lemma_one_is_power_of_two();
        assert(1u64 & 0u64 == 0) by (bit_vector);
    } else {
        lemma_single_bit_halves(n);
        lemma_power_of_two_halves(n as int);
        lemma_single_bit(n / 2);
    }
}

/// Tests whether `n` is a power of two.
pub fn is_power_of_two(n: usize) -> (r: bool)
    ensures
        r == power_of_two(n as int),
{
    if n == 0 {
        proof {
            if power_of_two(0) {
                lemma_power_of_two_is_positive(0);
            }
        }
        false
    } else {
        let wide: u64 = n as u64;
        proof {
            lemma_single_bit(wide);
        }
        (wide & (wide - 1)) == 0
    }
}

} // verus!
