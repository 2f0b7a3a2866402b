//! Facts about fractions of real numbers and about the cast from integers,
//! each small enough for the nonlinear solver to settle at once.

use vstd::prelude::*;

verus! {

/// The cast from integers to reals keeps products.
pub(crate) proof fn lemma_real_of_product(a: int, b: int)
    by (nonlinear_arith)
    ensures
        (a * b) as real == a as real * b as real,
{
}

/// A fraction over one is its numerator.
pub(crate) proof fn lemma_real_over_one(a: real)
    by (nonlinear_arith)
    ensures
        a / 1real == a,
{
}

/// Zero over anything but zero is zero.
pub(crate) proof fn lemma_real_zero_fraction(b: real)
    by (nonlinear_arith)
    requires
        b != 0real,
    ensures
        0real / b == 0real,
{
}

/// Anything but zero over itself is one.
pub(crate) proof fn lemma_real_fraction_of_equal(a: real)
    by (nonlinear_arith)
    requires
        a != 0real,
    ensures
        a / a == 1real,
{
}

/// Fractions multiply numerator by numerator and denominator by denominator.
pub(crate) proof fn lemma_real_fraction_product(a: real, b: real, c: real, d: real)
    by (nonlinear_arith)
    requires
        b != 0real,
        d != 0real,
    ensures
        (a / b) * (c / d) == (a * c) / (b * d),
{
}

/// Fractions add over the product of their denominators.
pub(crate) proof fn lemma_real_fraction_sum(a: real, b: real, c: real, d: real)
    by (nonlinear_arith)
    requires
        b != 0real,
        d != 0real,
    ensures
        a / b + c / d == (a * d + c * b) / (b * d),
{
}

/// The reciprocal of a fraction exchanges its two parts, and negating both
/// parts of a fraction leaves it unchanged.
pub(crate) proof fn lemma_real_fraction_recip(a: real, b: real)
    by (nonlinear_arith)
    requires
        a != 0real,
        b != 0real,
    ensures
        a / b != 0real,
        1real / (a / b) == b / a,
        (-b) / (-a) == b / a,
{
}

/// Negating both parts of a fraction leaves it unchanged.
pub(crate) proof fn lemma_real_fraction_negated(a: real, b: real)
    by (nonlinear_arith)
    requires
        b != 0real,
    ensures
        (-a) / (-b) == a / b,
{
}

/// A fraction over a positive denominator has the sign of its numerator.
pub(crate) proof fn lemma_real_fraction_sign(a: real, b: real)
    by (nonlinear_arith)
    requires
        b > 0real,
    ensures
        a > 0real ==> a / b > 0real,
        a < 0real ==> a / b < 0real,
        a == 0real ==> a / b == 0real,
{
}

/// Over one positive denominator, the larger numerator gives the larger fraction.
pub(crate) proof fn lemma_real_fraction_monotone(a: real, b: real, d: real)
    by (nonlinear_arith)
    requires
        d > 0real,
        a <= b,
    ensures
        a / d <= b / d,
        a < b ==> a / d < b / d,
{
}

/// The sign of a product follows from the signs of its factors.
pub(crate) proof fn lemma_real_product_sign(a: real, b: real)
    by (nonlinear_arith)
    ensures
        (a > 0real && b > 0real) || (a < 0real && b < 0real) ==> a * b > 0real,
        (a > 0real && b < 0real) || (a < 0real && b > 0real) ==> a * b < 0real,
        a == 0real || b == 0real ==> a * b == 0real,
{
}

/// To multiply by a reciprocal is to divide.
pub(crate) proof fn lemma_real_times_reciprocal(a: real, b: real)
    by (nonlinear_arith)
    requires
        b != 0real,
    ensures
        a * (1real / b) == a / b,
{
}

} // verus!
