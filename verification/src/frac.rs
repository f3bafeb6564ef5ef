//! Exact rational numbers.
//!
//! Every length and angle in the wheel is a rational `num / den` with a
//! positive denominator.  Angles are measured in turns: one full circle is
//! the value `1`, and the twelve-o'clock direction used by the layout is
//! the value `-1/4`.  Keeping the arithmetic exact lets the layout be
//! specified and proved without any rounding; the drawing host converts a
//! rational to its floating-point quotient only when it replays commands.

use vstd::arithmetic::mul::lemma_mul_is_associative;
use vstd::prelude::*;

verus! {

/// A rational number `num / den`.  Well-formed values have `den > 0`.
#[derive(Clone, Copy, Debug, PartialEq, Eq, Structural)]
pub struct Frac {
    pub num: i64,
    pub den: i64,
}

/// The mathematical content of a [`Frac`]: an unbounded rational.
pub ghost struct FracV {
    pub num: int,
    pub den: int,
}

impl View for Frac {
    type V = FracV;

    open spec fn view(&self) -> FracV {
        FracV { num: self.num as int, den: self.den as int }
    }
}

impl FracV {
    /// A rational is well formed when its denominator is positive.
    pub open spec fn wf(self) -> bool {
        self.den > 0
    }

    /// Value equality: `a/b == c/d` iff `a*d == c*b` (for positive `b`, `d`).
    pub open spec fn eqv(self, other: FracV) -> bool {
        self.num * other.den == other.num * self.den
    }

    /// Value order: `a/b <= c/d` iff `a*d <= c*b` (for positive `b`, `d`).
    pub open spec fn le(self, other: FracV) -> bool {
        self.num * other.den <= other.num * self.den
    }

    /// Strict value order (for positive denominators).
    pub open spec fn lt(self, other: FracV) -> bool {
        self.num * other.den < other.num * self.den
    }

    /// The exact product of two rationals.
    pub open spec fn mul(self, other: FracV) -> FracV {
        FracV { num: self.num * other.num, den: self.den * other.den }
    }

    /// Whether the product of `self` and `other` is representable in [`Frac`].
    pub open spec fn mul_fits(self, other: FracV) -> bool {
        &&& i64::MIN <= self.num * other.num <= i64::MAX
        &&& self.den * other.den <= i64::MAX
    }
}

/// The product of two 64-bit values always fits in 128 bits.
pub proof fn lemma_i64_mul_fits_i128(x: int, y: int)
    requires
        i64::MIN <= x <= i64::MAX,
        i64::MIN <= y <= i64::MAX,
    ensures
        i128::MIN <= x * y <= i128::MAX,
{
    assert(i128::MIN <= x * y <= i128::MAX) by (nonlinear_arith)
        requires
            -0x8000_0000_0000_0000 <= x <= 0x7fff_ffff_ffff_ffff,
            -0x8000_0000_0000_0000 <= y <= 0x7fff_ffff_ffff_ffff,
    ;
}

impl Frac {
    /// The exact product.  The factors must be well formed and the result
    /// must be representable in 64 bits.
    pub fn mul(self, other: Frac) -> (r: Frac)
        requires
            self@.wf(),
            other@.wf(),
            self@.mul_fits(other@),
        ensures
            r@ == self@.mul(other@),
            r@.wf(),
    {
        proof {
            lemma_i64_mul_fits_i128(self.num as int, other.num as int);
            lemma_i64_mul_fits_i128(self.den as int, other.den as int);
            assert(self.den as int * other.den as int > 0) by (nonlinear_arith)
                requires
                    self.den > 0,
                    other.den > 0,
            ;
        }
        let num_wide: i128 = (self.num as i128) * (other.num as i128);
        let den_wide: i128 = (self.den as i128) * (other.den as i128);
        Frac { num: num_wide as i64, den: den_wide as i64 }
    }

    /// Value comparison `self <= other`, exact.
    pub fn le(self, other: Frac) -> (r: bool)
        requires
            self@.wf(),
            other@.wf(),
        ensures
            r == self@.le(other@),
    {
        proof {
            lemma_i64_mul_fits_i128(self.num as int, other.den as int);
            lemma_i64_mul_fits_i128(other.num as int, self.den as int);
        }
        (self.num as i128) * (other.den as i128) <= (other.num as i128) * (self.den as i128)
    }

    /// Value comparison `self < other`, exact.
    pub fn lt(self, other: Frac) -> (r: bool)
        requires
            self@.wf(),
            other@.wf(),
        ensures
            r == self@.lt(other@),
    {
        proof {
            lemma_i64_mul_fits_i128(self.num as int, other.den as int);
            lemma_i64_mul_fits_i128(other.num as int, self.den as int);
        }
        (self.num as i128) * (other.den as i128) < (other.num as i128) * (self.den as i128)
    }

    /// Value equality, exact: `1/2` equals `2/4`.
    pub fn eq_value(self, other: Frac) -> (r: bool)
        requires
            self@.wf(),
            other@.wf(),
        ensures
            r == self@.eqv(other@),
    {
        proof {
            lemma_i64_mul_fits_i128(self.num as int, other.den as int);
            lemma_i64_mul_fits_i128(other.num as int, self.den as int);
        }
        (self.num as i128) * (other.den as i128) == (other.num as i128) * (self.den as i128)
    }
}

/// Rational multiplication is associative on the nose: the two products
/// have identical numerators and denominators, not merely equal values.
pub proof fn lemma_mul_associative(a: FracV, b: FracV, c: FracV)
    ensures
        a.mul(b).mul(c) == a.mul(b.mul(c)),
{
    lemma_mul_is_associative(a.num, b.num, c.num);
    lemma_mul_is_associative(a.den, b.den, c.den);
}

/// The value order is total and antisymmetric up to value equality.
pub proof fn lemma_le_properties(a: FracV, b: FracV)
    requires
        a.wf(),
        b.wf(),
    ensures
        a.le(b) || b.le(a),
        a.le(b) && b.le(a) ==> a.eqv(b),
        a.lt(b) <==> !b.le(a),
{
}

/// Strict-then-weak transitivity, used for arc well-formedness after a join.
pub proof fn lemma_lt_le_transitive(a: FracV, b: FracV, c: FracV)
    requires
        a.wf(),
        b.wf(),
        c.wf(),
        a.lt(b),
        b.le(c),
    ensures
        a.lt(c),
{
    assert(a.num * c.den < c.num * a.den) by (nonlinear_arith)
        requires
            a.den > 0,
            b.den > 0,
            c.den > 0,
            a.num * b.den < b.num * a.den,
            b.num * c.den <= c.num * b.den,
    ;
}

/// Over a common positive denominator, the value order is the numerator order.
pub proof fn lemma_le_same_den(a: FracV, b: FracV)
    requires
        a.wf(),
        b.wf(),
        a.den == b.den,
    ensures
        a.le(b) <==> a.num <= b.num,
        a.lt(b) <==> a.num < b.num,
{
    assert((a.num <= b.num ==> a.num * b.den <= b.num * a.den)
        && (a.num * b.den <= b.num * a.den ==> a.num <= b.num)
        && (a.num < b.num ==> a.num * b.den < b.num * a.den)
        && (a.num * b.den < b.num * a.den ==> a.num < b.num)) by (nonlinear_arith)
        requires
            a.den == b.den,
            a.den > 0,
    ;
}

} // verus!
