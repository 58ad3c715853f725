//! Exact decimal fractions and the rounding of quotients.
use vstd::prelude::*;

verus! {

/// How many stored units make one whole: a [`Decimal`] counts billionths.
pub const NANOS_PER_UNIT: i64 = 1_000_000_000;

/// A signed decimal fraction with nine places, held exactly as a count of
/// billionths. Ease factors, multipliers and rewards are all of this type, so
/// every sum, product and rounding in the engine is exact integer arithmetic.
#[derive(Clone, Copy, Debug, PartialEq, Eq, Structural)]
pub struct Decimal {
    pub nanos: i64,
}

impl View for Decimal {
    type V = int;

    /// The value in billionths.
    open spec fn view(&self) -> int {
        self.nanos as int
    }
}

/// Ten to the power `n`.
pub open spec fn pow10(n: nat) -> int
    decreases n,
{
    if n == 0 {
        1
    } else {
        10 * pow10((n - 1) as nat)
    }
}

/// The integer nearest to `num / den`, halves going away from zero.
pub open spec fn round_half_away(num: int, den: int) -> int
    recommends
        den > 0,
{
    if num >= 0 {
        (2 * num + den) / (2 * den)
    } else {
        -((den - 2 * num) / (2 * den))
    }
}

/// Rounding a quotient keeps the order of the numerators.
pub proof fn lemma_rounding_is_monotonic(a: int, b: int, den: int)
    requires
        a <= b,
        den > 0,
    ensures
        round_half_away(a, den) <= round_half_away(b, den),
{
    if a >= 0 {
        vstd::arithmetic::div_mod::lemma_div_is_ordered(2 * a + den, 2 * b + den, 2 * den);
    } else if b < 0 {
        vstd::arithmetic::div_mod::lemma_div_is_ordered(den - 2 * b, den - 2 * a, 2 * den);
    } else {
        vstd::arithmetic::div_mod::lemma_div_pos_is_pos(den - 2 * a, 2 * den);
        vstd::arithmetic::div_mod::lemma_div_pos_is_pos(2 * b + den, 2 * den);
    }
}

impl Decimal {
    /// The decimal that is `nanos` billionths.
    pub fn from_nanos(nanos: i64) -> (r: Decimal)
        ensures
            r@ == nanos,
    {
        Decimal { nanos }
    }

    /// The decimal that is `thousandths` thousandths.
    pub fn from_thousandths(thousandths: i32) -> (r: Decimal)
        ensures
            r@ == thousandths * 1_000_000,
    {
        let wide: i64 = thousandths as i64;
        Decimal { nanos: wide * 1_000_000 }
    }

    /// The decimal that is the whole number `units`.
    pub fn from_units(units: u32) -> (r: Decimal)
        ensures
            r@ == units * NANOS_PER_UNIT,
    {
        let wide: i64 = units as i64;
        Decimal { nanos: wide * NANOS_PER_UNIT }
    }

    /// The value in billionths.
    pub fn nanos(&self) -> (r: i64)
        ensures
            r == self@,
    {
        self.nanos
    }

    /// Whether the value has no digits beyond the third decimal place.
    pub open spec fn spec_is_whole_thousandths(&self) -> bool {
        self@ % 1_000_000 == 0
    }

    /// Whether the value has no digits beyond the third decimal place.
    pub fn is_whole_thousandths(&self) -> (r: bool)
        ensures
            r == self.spec_is_whole_thousandths(),
    {
        self.nanos % 1_000_000 == 0
    }
}

} // verus!
