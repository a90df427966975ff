//! Exact application of per-mille rates to yen amounts.
use vstd::prelude::*;

verus! {

/// `amount` times `rate` per-mille, truncated to whole yen.
pub open spec fn per_mille(amount: int, rate: int) -> int {
    amount * rate / 1000
}

/// The tax share contained in a tax-inclusive `amount` at `rate` per-mille,
/// `amount * rate / (1000 + rate)`, rounded to the nearest yen with halves
/// rounded up.
pub open spec fn inclusive_share(amount: int, rate: int) -> int {
    (2 * amount * rate + 1000 + rate) / (2 * (1000 + rate))
}

/// The part of `amount` left after taking off `rate` per-mille, truncated:
/// `amount - amount * rate / 1000`.
pub open spec fn remainder_after(amount: int, rate: int) -> int {
    amount - per_mille(amount, rate)
}

/// Truncated per-mille amount never exceeds the amount itself.
pub proof fn lemma_per_mille_bounds(amount: int, rate: int)
    requires
        0 <= amount,
        0 <= rate <= 1000,
    ensures
        0 <= per_mille(amount, rate) <= amount,
{
    assert(0 <= amount * rate <= amount * 1000) by (nonlinear_arith)
        requires
            0 <= amount,
            0 <= rate <= 1000,
    ;
}

/// A larger amount never gives a smaller per-mille share.
pub proof fn lemma_per_mille_monotone(a: int, b: int, rate: int)
    requires
        0 <= a <= b,
        0 <= rate,
    ensures
        per_mille(a, rate) <= per_mille(b, rate),
{
    assert(a * rate <= b * rate) by (nonlinear_arith)
        requires
            0 <= a <= b,
            0 <= rate,
    ;
    vstd::arithmetic::div_mod::lemma_div_is_ordered(a * rate, b * rate, 1000);
}

/// Applies `rate` per-mille to `amount`, truncating to whole yen.
pub fn apply_rate(amount: u64, rate: u64) -> (r: u64)
    requires
        rate <= 1000,
    ensures
        r == per_mille(amount as int, rate as int),
{
    proof {
        lemma_per_mille_bounds(amount as int, rate as int);
        assert(amount * rate <= 0xffff_ffff_ffff_ffffu128 * 1000) by (nonlinear_arith)
            requires
                amount <= 0xffff_ffff_ffff_ffffu64,
                rate <= 1000,
        ;
    }
    let product: u128 = (amount as u128) * (rate as u128);
    (product / 1000) as u64
}

/// Extracts the tax contained in a tax-inclusive `amount` at `rate` per-mille,
/// rounded to the nearest yen (halves up).
pub fn apply_inclusive_rate(amount: u64, rate: u64) -> (r: u64)
    requires
        rate <= 1000,
    ensures
        r == inclusive_share(amount as int, rate as int),
        r <= amount,
{
    proof {
        let a = amount as int;
        let k = rate as int;
        assert(2 * a * k <= 0xffff_ffff_ffff_ffffu128 * 2000) by (nonlinear_arith)
            requires
                0 <= a <= 0xffff_ffff_ffff_ffffu64,
                0 <= k <= 1000,
        ;
        // 2ak + 1000 + k <= 2a(1000 + k) + (1000 + k), so the quotient is at most a
        assert(2 * a * k + 1000 + k < (2 * (1000 + k)) * (a + 1)) by (nonlinear_arith)
            requires
                0 <= a,
                0 <= k <= 1000,
        ;
        assert(inclusive_share(a, k) <= a) by {
            assert(2 * a * k + 1000 + k >= 0) by (nonlinear_arith)
                requires
                    0 <= a,
                    0 <= k,
            ;
            vstd::arithmetic::div_mod::lemma_multiply_divide_lt(
                2 * a * k + 1000 + k,
                2 * (1000 + k),
                a + 1,
            );
        }
    }
    let numerator: u128 = 2 * (amount as u128) * (rate as u128) + 1000 + (rate as u128);
    let denominator: u128 = 2 * (1000 + (rate as u128));
    (numerator / denominator) as u64
}

} // verus!
