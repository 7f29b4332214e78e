use vstd::prelude::*;

verus! {

/// Quotient of `a / b` rounded toward zero, as Rust's `/` on signed integers computes it.
pub open spec fn div_toward_zero(a: int, b: int) -> int
    recommends
        b > 0,
{
    if a >= 0 {
        a / b
    } else {
        -((-a) / b)
    }
}

/// The platform fee (4% + 40¢) charged on a transaction of `amount` cents:
/// the amount is first truncated to whole dollars, toward zero.
pub open spec fn platform_fee(amount: int) -> int {
    div_toward_zero(amount, 100) * 4 + 40
}

/// Calculates the platform fee (4% + 40¢) given the transaction amount
pub fn execute(amount: i64) -> (fee: i64)
    ensures
        fee == platform_fee(amount as int),
{
    (amount / 100 * 4) + 40
}

} // verus!

verus! {

/// On a whole number of dollars the fee is four cents per dollar plus forty cents.
pub proof fn lemma_fee_on_whole_dollars(dollars: int)
    ensures
        platform_fee(100 * dollars) == 4 * dollars + 40,
{
    if dollars >= 0 {
        assert((100 * dollars) / 100 == dollars) by (nonlinear_arith);
    } else {
        assert((-(100 * dollars)) / 100 == -dollars) by (nonlinear_arith)
            requires
                dollars < 0,
        ;
    }
}

/// Cents short of the next whole dollar are not charged: the fee on a non-negative
/// amount is the fee on its whole dollars.
pub proof fn lemma_fee_ignores_cents(dollars: int, cents: int)
    requires
        dollars >= 0,
        0 <= cents < 100,
    ensures
        platform_fee(100 * dollars + cents) == platform_fee(100 * dollars),
{
    assert((100 * dollars + cents) / 100 == dollars) by (nonlinear_arith)
        requires
            dollars >= 0,
            0 <= cents < 100,
    ;
    assert((100 * dollars) / 100 == dollars) by (nonlinear_arith);
}

/// The fee never decreases as the amount grows.
pub proof fn lemma_fee_monotonic(a: int, b: int)
    requires
        a <= b,
    ensures
        platform_fee(a) <= platform_fee(b),
{
    if a >= 0 {
        assert(a / 100 <= b / 100) by (nonlinear_arith)
            requires
                0 <= a <= b,
        ;
    } else if b >= 0 {
        assert(b / 100 >= 0) by (nonlinear_arith)
            requires
                b >= 0,
        ;
        assert((-a) / 100 >= 0) by (nonlinear_arith)
            requires
                a < 0,
        ;
    } else {
        assert((-b) / 100 <= (-a) / 100) by (nonlinear_arith)
            requires
                a <= b < 0,
        ;
    }
}

} // verus!
