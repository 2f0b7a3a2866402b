//! Exact fractions of two integers, with the arithmetic the allocator needs.
//!
//! A `Ratio` with a positive denominator is a real number. One with
//! denominator zero stands for what exact arithmetic gives where the reals
//! end: an infinity with the sign of the numerator, or no value where the
//! numerator is zero as well. No operation rounds.

use vstd::prelude::*;
use crate::extended::Extended;
use crate::real_lemmas::{
    lemma_real_fraction_negated, lemma_real_fraction_product, lemma_real_fraction_recip,
    lemma_real_fraction_sign, lemma_real_fraction_sum, lemma_real_of_product,
    lemma_real_over_one, lemma_real_product_sign, lemma_real_times_reciprocal,
    lemma_real_zero_fraction,
};

verus! {

/// The value of the fraction `n / d`: their quotient, or for a denominator of
/// zero the infinity that has the sign of `n`.
pub open spec fn value_of(n: int, d: int) -> Extended {
    if d != 0 {
        Extended::Finite(n as real / d as real)
    } else {
        Extended::infinite(n as real)
    }
}

/// The fraction `num / den`.
#[derive(Clone, Copy, Debug)]
pub struct Ratio {
    pub num: i128,
    pub den: i128,
}

impl View for Ratio {
    type V = Extended;

    /// The value of the fraction on the extended real line.
    open spec fn view(&self) -> Extended {
        value_of(self.num as int, self.den as int)
    }
}

impl Ratio {
    /// The denominator is not negative, and the numerator can be negated.
    pub open spec fn wf(&self) -> bool {
        &&& self.den >= 0
        &&& self.num > i128::MIN
    }

    /// The fraction is a real number.
    pub open spec fn is_finite(&self) -> bool {
        self.den != 0
    }

    /// The fraction of `num` over `den`, with the sign of `den` moved to the
    /// numerator.
    pub fn new(num: i128, den: i128) -> (r: Ratio)
        requires
            num > i128::MIN,
            den > i128::MIN,
        ensures
            r.wf(),
            r.num == (if den < 0 { -num } else { num as int }),
            r.den == (if den < 0 { -den } else { den as int }),
            r@ == Extended::from_int(num as int).div(Extended::from_int(den as int)),
    {
        proof {
            if den != 0 {
                lemma_real_times_reciprocal(num as real, den as real);
                lemma_real_fraction_negated(num as real, den as real);
            }
        }
        if den < 0 {
            Ratio { num: -num, den: -den }
        } else {
            Ratio { num, den }
        }
    }

    /// The integer `value` as a fraction over one.
    pub fn from_int(value: i64) -> (r: Ratio)
        ensures
            r.wf(),
            r.num == value,
            r.den == 1,
            r@ == Extended::from_int(value as int),
    {
        let r = Ratio { num: value as i128, den: 1 };
        proof {
            lemma_real_over_one(value as real);
        }
        r
    }

    /// The product of two fractions.
    pub fn mul(&self, other: &Ratio) -> (r: Ratio)
        requires
            self.wf(),
            other.wf(),
            i128::MIN < self.num * other.num <= i128::MAX,
            self.den * other.den <= i128::MAX,
        ensures
            r.wf(),
            r.num == self.num * other.num,
            r.den == self.den * other.den,
            r@ == self@.mul(other@),
    {
        proof {
            lemma_sign_rules(self.den as int, other.den as int);
            lemma_mul_view(self.num as int, self.den as int, other.num as int, other.den as int);
        }
        Ratio { num: self.num * other.num, den: self.den * other.den }
    }

    /// The reciprocal. The sign moves to the numerator, so that the
    /// denominator stays free of it.
    pub fn recip(&self) -> (r: Ratio)
        requires
            self.wf(),
        ensures
            r.wf(),
            r.num == (if self.num < 0 { -self.den } else { self.den as int }),
            r.den == (if self.num < 0 { -self.num } else { self.num as int }),
            r@ == self@.recip(),
    {
        proof {
            lemma_recip_view(self.num as int, self.den as int);
        }
        if self.num < 0 {
            Ratio { num: -self.den, den: -self.num }
        } else {
            Ratio { num: self.den, den: self.num }
        }
    }

    /// The quotient of two fractions: the product with the reciprocal of `other`.
    pub fn div(&self, other: &Ratio) -> (r: Ratio)
        requires
            self.wf(),
            other.wf(),
            -i128::MAX <= self.num * other.den <= i128::MAX,
            -i128::MAX <= self.den * other.num <= i128::MAX,
        ensures
            r.wf(),
            r.num == (if other.num < 0 { -(self.num * other.den) } else { self.num * other.den }),
            r.den == (if other.num < 0 { -(self.den * other.num) } else { self.den * other.num }),
            r@ == self@.div(other@),
    {
        let inverse = other.recip();
        proof {
            lemma_negated_products(
                self.num as int,
                self.den as int,
                other.num as int,
                other.den as int,
            );
        }
        self.mul(&inverse)
    }

    /// The sum of two fractions. An infinite term decides the sum; two of
    /// them agree or leave no value.
    pub fn add(&self, other: &Ratio) -> (r: Ratio)
        requires
            self.wf(),
            other.wf(),
            -i128::MAX <= self.num * other.den <= i128::MAX,
            -i128::MAX <= other.num * self.den <= i128::MAX,
            -i128::MAX <= self.num * other.den + other.num * self.den <= i128::MAX,
            self.den * other.den <= i128::MAX,
        ensures
            r.wf(),
            self.is_finite() && other.is_finite() ==> {
                &&& r.num == self.num * other.den + other.num * self.den
                &&& r.den == self.den * other.den
            },
            !self.is_finite() && other.is_finite() ==> r == *self,
            self.is_finite() && !other.is_finite() ==> r == *other,
            !self.is_finite() && !other.is_finite() ==> r.den == 0 && (r.num == self.num || r.num
                == 0),
            r@ == self@.add(other@),
    {
        proof {
            lemma_sign_rules(self.den as int, other.den as int);
            lemma_add_view(self.num as int, self.den as int, other.num as int, other.den as int);
        }
        if self.den != 0 && other.den != 0 {
            Ratio { num: self.num * other.den + other.num * self.den, den: self.den * other.den }
        } else if other.den != 0 {
            *self
        } else if self.den != 0 {
            *other
        } else if (self.num > 0 && other.num > 0) || (self.num < 0 && other.num < 0) {
            *self
        } else {
            Ratio { num: 0, den: 0 }
        }
    }
}

/// A product of two numbers that are not negative is not negative, and is
/// zero only where a factor is.
proof fn lemma_sign_rules(a: int, b: int)
    by (nonlinear_arith)
    requires
        a >= 0,
        b >= 0,
    ensures
        a * b >= 0,
        a * b == 0 <==> (a == 0 || b == 0),
{
}

/// Multiplying numerators and denominators multiplies the values.
proof fn lemma_mul_view(an: int, ad: int, bn: int, bd: int)
    requires
        ad >= 0,
        bd >= 0,
    ensures
        value_of(an * bn, ad * bd) == value_of(an, ad).mul(value_of(bn, bd)),
{
    lemma_sign_rules(ad, bd);
    lemma_real_of_product(an, bn);
    lemma_real_of_product(ad, bd);
    let a = value_of(an, ad);
    let b = value_of(bn, bd);
    if ad != 0 && bd != 0 {
        lemma_real_fraction_product(an as real, ad as real, bn as real, bd as real);
    } else {
        if ad != 0 {
            lemma_real_fraction_sign(an as real, ad as real);
        }
        if bd != 0 {
            lemma_real_fraction_sign(bn as real, bd as real);
        }
        lemma_real_product_sign(an as real, bn as real);
        lemma_real_product_sign(a.sign(), b.sign());
    }
}

/// Exchanging numerator and denominator, with the sign kept above, gives the
/// reciprocal of the value.
proof fn lemma_recip_view(n: int, d: int)
    requires
        d >= 0,
    ensures
        n < 0 ==> value_of(-d, -n) == value_of(n, d).recip(),
        n >= 0 ==> value_of(d, n) == value_of(n, d).recip(),
{
    if n != 0 && d != 0 {
        lemma_real_fraction_recip(n as real, d as real);
    } else if n != 0 {
        lemma_real_zero_fraction(n as real);
        lemma_real_zero_fraction(-n as real);
    } else if d != 0 {
        lemma_real_zero_fraction(d as real);
    }
}

/// Negating a factor negates the product.
proof fn lemma_negated_products(an: int, ad: int, bn: int, bd: int)
    by (nonlinear_arith)
    ensures
        an * (-bd) == -(an * bd),
        ad * (-bn) == -(ad * bn),
{
}

/// Over a common denominator the numerators add; an infinite term decides
/// the sum.
proof fn lemma_add_view(an: int, ad: int, bn: int, bd: int)
    requires
        ad >= 0,
        bd >= 0,
    ensures
        ad != 0 && bd != 0 ==> value_of(an * bd + bn * ad, ad * bd) == value_of(an, ad).add(
            value_of(bn, bd),
        ),
        ad == 0 && bd != 0 ==> value_of(an, ad) == value_of(an, ad).add(value_of(bn, bd)),
        ad != 0 && bd == 0 ==> value_of(bn, bd) == value_of(an, ad).add(value_of(bn, bd)),
        ad == 0 && bd == 0 && ((an > 0 && bn > 0) || (an < 0 && bn < 0)) ==> value_of(an, ad)
            == value_of(an, ad).add(value_of(bn, bd)),
        ad == 0 && bd == 0 && !((an > 0 && bn > 0) || (an < 0 && bn < 0)) ==> value_of(0, 0)
            == value_of(an, ad).add(value_of(bn, bd)),
{
    if ad != 0 && bd != 0 {
        lemma_sign_rules(ad, bd);
        lemma_real_of_product(an, bd);
        lemma_real_of_product(bn, ad);
        lemma_real_of_product(ad, bd);
        lemma_real_fraction_sum(an as real, ad as real, bn as real, bd as real);
    }
}

} // verus!
