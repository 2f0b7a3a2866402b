//! Values of the extended real line, used only in contracts.
//!
//! Exact arithmetic on fractions can leave the reals: a quotient by zero is
//! infinite, and some combinations of infinite values have no value at all.
//! `Extended` gives each of those outcomes a name, so that every operation is
//! total and a contract can say which outcome a computation has.

use vstd::prelude::*;
use crate::real_lemmas::lemma_real_times_reciprocal;

verus! {

/// A real number, one of the two infinities, or no value.
pub ghost enum Extended {
    Finite(real),
    PosInf,
    NegInf,
    Undefined,
}

impl Extended {
    /// The integer `i` as a finite value.
    pub open spec fn from_int(i: int) -> Extended {
        Extended::Finite(i as real)
    }

    /// The infinite value with the sign of `sign`, or no value where `sign` is zero.
    pub open spec fn infinite(sign: real) -> Extended {
        if sign > 0real {
            Extended::PosInf
        } else if sign < 0real {
            Extended::NegInf
        } else {
            Extended::Undefined
        }
    }

    /// A number that has the sign of the value: positive, negative or zero.
    /// A finite value is its own sign; no value has sign zero.
    pub open spec fn sign(self) -> real {
        match self {
            Extended::Finite(x) => x,
            Extended::PosInf => 1real,
            Extended::NegInf => -1real,
            Extended::Undefined => 0real,
        }
    }

    /// The sum. An infinity absorbs every finite value and its own like;
    /// opposite infinities have no sum.
    pub open spec fn add(self, other: Extended) -> Extended {
        match (self, other) {
            (Extended::Finite(x), Extended::Finite(y)) => Extended::Finite(x + y),
            (Extended::Undefined, _) => Extended::Undefined,
            (_, Extended::Undefined) => Extended::Undefined,
            (Extended::Finite(_), _) => other,
            (_, Extended::Finite(_)) => self,
            _ => if self == other {
                self
            } else {
                Extended::Undefined
            },
        }
    }

    /// The product. An infinite factor makes the product infinite, with the
    /// product's sign; zero times an infinity has no value.
    pub open spec fn mul(self, other: Extended) -> Extended {
        match (self, other) {
            (Extended::Finite(x), Extended::Finite(y)) => Extended::Finite(x * y),
            (Extended::Undefined, _) => Extended::Undefined,
            (_, Extended::Undefined) => Extended::Undefined,
            _ => Extended::infinite(self.sign() * other.sign()),
        }
    }

    /// The reciprocal. That of zero is positive infinity, and that of either
    /// infinity is zero.
    pub open spec fn recip(self) -> Extended {
        match self {
            Extended::Finite(x) => if x == 0real {
                Extended::PosInf
            } else {
                Extended::Finite(1real / x)
            },
            Extended::PosInf => Extended::Finite(0real),
            Extended::NegInf => Extended::Finite(0real),
            Extended::Undefined => Extended::Undefined,
        }
    }

    /// The quotient: the product with the divisor's reciprocal. A nonzero
    /// value over zero is the infinity of the value's sign, and zero over zero
    /// has no value.
    pub open spec fn div(self, other: Extended) -> Extended {
        self.mul(other.recip())
    }
}

/// Between finite values with a nonzero divisor, `div` is the division of reals.
pub proof fn lemma_div_finite(x: real, y: real)
    requires
        y != 0real,
    ensures
        Extended::Finite(x).div(Extended::Finite(y)) == Extended::Finite(x / y),
{
    lemma_real_times_reciprocal(x, y);
}

/// A positive value over zero is positive infinity.
pub proof fn lemma_div_by_zero(x: real)
    requires
        x > 0real,
    ensures
        Extended::Finite(x).div(Extended::Finite(0real)) == Extended::PosInf,
{
}

} // verus!
