//! The abstract scalar that both ket representations are built over.
//!
//! Every numeric operation the crate performs on its scalars goes through
//! the [`Scalar`] trait.  Each operation comes in two parts: a spec
//! function (`m_*`) naming the mathematical value of that operation for
//! the instance at hand, and an executable method that must return exactly
//! that value.  Contracts throughout the crate are stated over the `m_*`
//! models, so every algorithm is pinned down elementwise, in evaluation
//! order, for any instance.
//!
//! A handful of algebraic laws are part of the trait: they are what the
//! Hermitian-symmetry argument for the inner product needs, and every
//! instance must prove them.  The crate ships one instance, the modular
//! ring on `u64`, which witnesses that the laws are satisfiable and gives
//! an exact scalar to run the algorithms on.

use vstd::prelude::*;

verus! {

/// An abstract scalar: the element type of the backing arrays of kets.
///
/// The names follow the operations the algorithms need on a
/// floating-point instance; an instance is free to give the root and
/// trigonometric operations any (total, deterministic) meaning, since no
/// law constrains them.
pub trait Scalar: Copy + Sized {
    /// Model of [`Scalar::zero`], the additive identity.
    spec fn m_zero() -> Self;

    /// Model of [`Scalar::one`], the multiplicative identity.
    spec fn m_one() -> Self;

    /// Model of [`Scalar::pi`], the half-turn angle.
    spec fn m_pi() -> Self;

    /// Model of [`Scalar::of_usize`].
    spec fn m_of_usize(n: usize) -> Self;

    /// Model of [`Scalar::neg`].
    spec fn m_neg(self) -> Self;

    /// Model of [`Scalar::add`].
    spec fn m_add(self, other: Self) -> Self;

    /// Model of [`Scalar::sub`].
    spec fn m_sub(self, other: Self) -> Self;

    /// Model of [`Scalar::mul`].
    spec fn m_mul(self, other: Self) -> Self;

    /// Model of [`Scalar::div`].
    spec fn m_div(self, other: Self) -> Self;

    /// Model of [`Scalar::rem`].
    spec fn m_rem(self, other: Self) -> Self;

    /// Model of [`Scalar::sqrt`].
    spec fn m_sqrt(self) -> Self;

    /// Model of [`Scalar::hypot`].
    spec fn m_hypot(self, other: Self) -> Self;

    /// Model of [`Scalar::sin`].
    spec fn m_sin(self) -> Self;

    /// Model of [`Scalar::cos`].
    spec fn m_cos(self) -> Self;

    /// Model of [`Scalar::atan2`]; `self` is the ordinate.
    spec fn m_atan2(self, x: Self) -> Self;

    /// Model of [`Scalar::round`].
    spec fn m_round(self) -> Self;

    /// Model of [`Scalar::trunc_byte`].
    spec fn m_trunc_byte(self) -> u8;

    /// Model of [`Scalar::lex_cmp`]: `Some(-1)`, `Some(0)`, `Some(1)`, or
    /// `None` where the instance has incomparable values.
    spec fn m_lex_cmp(self, other: Self) -> Option<i8>;

    /// The additive identity.
    fn zero() -> (r: Self)
        ensures
            r == Self::m_zero(),
    ;

    /// The multiplicative identity.
    fn one() -> (r: Self)
        ensures
            r == Self::m_one(),
    ;

    /// The half-turn angle, so that a full turn is `2 * pi`.
    fn pi() -> (r: Self)
        ensures
            r == Self::m_pi(),
    ;

    /// The scalar standing for the small non-negative integer `n`.
    fn of_usize(n: usize) -> (r: Self)
        ensures
            r == Self::m_of_usize(n),
    ;

    /// Additive inverse.
    fn neg(self) -> (r: Self)
        ensures
            r == self.m_neg(),
    ;

    /// Addition.
    fn add(self, other: Self) -> (r: Self)
        ensures
            r == self.m_add(other),
    ;

    /// Subtraction.
    fn sub(self, other: Self) -> (r: Self)
        ensures
            r == self.m_sub(other),
    ;

    /// Multiplication.
    fn mul(self, other: Self) -> (r: Self)
        ensures
            r == self.m_mul(other),
    ;

    /// Division; total, with an instance-chosen value on a zero divisor.
    fn div(self, other: Self) -> (r: Self)
        ensures
            r == self.m_div(other),
    ;

    /// Remainder; total, with an instance-chosen value on a zero divisor.
    fn rem(self, other: Self) -> (r: Self)
        ensures
            r == self.m_rem(other),
    ;

    /// Square root.
    fn sqrt(self) -> (r: Self)
        ensures
            r == self.m_sqrt(),
    ;

    /// Euclidean length of the vector `(self, other)`.
    fn hypot(self, other: Self) -> (r: Self)
        ensures
            r == self.m_hypot(other),
    ;

    /// Sine of an angle in radians.
    fn sin(self) -> (r: Self)
        ensures
            r == self.m_sin(),
    ;

    /// Cosine of an angle in radians.
    fn cos(self) -> (r: Self)
        ensures
            r == self.m_cos(),
    ;

    /// Angle of the point `(x, self)`, with `self` the ordinate.
    fn atan2(self, x: Self) -> (r: Self)
        ensures
            r == self.m_atan2(x),
    ;

    /// Rounding to the nearest integral value.
    fn round(self) -> (r: Self)
        ensures
            r == self.m_round(),
    ;

    /// The byte a value in `[0, 256)` stands for.
    fn trunc_byte(self) -> (r: u8)
        ensures
            r == self.m_trunc_byte(),
    ;

    /// Total-enough comparison for deterministic debug ordering.
    fn lex_cmp(self, other: Self) -> (r: Option<i8>)
        ensures
            r == self.m_lex_cmp(other),
    ;

    /// Addition is commutative.
    proof fn law_add_comm(a: Self, b: Self)
        ensures
            a.m_add(b) == b.m_add(a),
    ;

    /// Multiplication is commutative.
    proof fn law_mul_comm(a: Self, b: Self)
        ensures
            a.m_mul(b) == b.m_mul(a),
    ;

    /// Negation fixes zero.
    proof fn law_neg_zero()
        ensures
            Self::m_zero().m_neg() == Self::m_zero(),
    ;

    /// Negation is an involution.
    proof fn law_neg_neg(a: Self)
        ensures
            a.m_neg().m_neg() == a,
    ;

    /// Negation distributes over addition.
    proof fn law_neg_add(a: Self, b: Self)
        ensures
            a.m_add(b).m_neg() == a.m_neg().m_add(b.m_neg()),
    ;

    /// A negated factor negates the product.
    proof fn law_mul_neg_left(a: Self, b: Self)
        ensures
            a.m_neg().m_mul(b) == a.m_mul(b).m_neg(),
    ;

}

/// Conversion from a wide scalar into the narrow scalar `A`, used when
/// compressing the full-precision representation into the compact one.
pub trait Demote<A: Scalar>: Scalar {
    /// Model of [`Demote::demote`].
    spec fn m_demote(self) -> A;

    /// The narrow counterpart of `self`.
    fn demote(self) -> (r: A)
        ensures
            r == self.m_demote(),
    ;
}

/// The ring of integers modulo `2^64`, the crate's own exact instance.
///
/// The ring operations wrap; the operations that have no modular meaning
/// (root, trigonometric, rounding) are fixed to simple total functions,
/// which no law constrains.  The instance witnesses the algebraic laws
/// and gives the algorithms an exact scalar to run on.
impl Scalar for u64 {
    open spec fn m_zero() -> u64 {
        0u64
    }

    open spec fn m_one() -> u64 {
        1u64
    }

    open spec fn m_pi() -> u64 {
        0u64
    }

    open spec fn m_of_usize(n: usize) -> u64 {
        n as u64
    }

    open spec fn m_neg(self) -> u64 {
        0u64.wrapping_sub(self)
    }

    open spec fn m_add(self, other: u64) -> u64 {
        self.wrapping_add(other)
    }

    open spec fn m_sub(self, other: u64) -> u64 {
        self.wrapping_sub(other)
    }

    open spec fn m_mul(self, other: u64) -> u64 {
        self.wrapping_mul(other)
    }

    open spec fn m_div(self, other: u64) -> u64 {
        if other == 0 {
            0u64
        } else {
            self / other
        }
    }

    open spec fn m_rem(self, other: u64) -> u64 {
        if other == 0 {
            self
        } else {
            self % other
        }
    }

    open spec fn m_sqrt(self) -> u64 {
        self
    }

    open spec fn m_hypot(self, other: u64) -> u64 {
        self.wrapping_add(other)
    }

    open spec fn m_sin(self) -> u64 {
        0u64
    }

    open spec fn m_cos(self) -> u64 {
        1u64
    }

    open spec fn m_atan2(self, x: u64) -> u64 {
        0u64
    }

    open spec fn m_round(self) -> u64 {
        self
    }

    open spec fn m_trunc_byte(self) -> u8 {
        (self % 256) as u8
    }

    open spec fn m_lex_cmp(self, other: u64) -> Option<i8> {
        if self < other {
            Some(-1i8)
        } else if self == other {
            Some(0i8)
        } else {
            Some(1i8)
        }
    }

    fn zero() -> u64 {
        0
    }

    fn one() -> u64 {
        1
    }

    fn pi() -> u64 {
        0
    }

    fn of_usize(n: usize) -> u64 {
        n as u64
    }

    fn neg(self) -> u64 {
        0u64.wrapping_sub(self)
    }

    fn add(self, other: u64) -> u64 {
        self.wrapping_add(other)
    }

    fn sub(self, other: u64) -> u64 {
        self.wrapping_sub(other)
    }

    fn mul(self, other: u64) -> u64 {
        self.wrapping_mul(other)
    }

    fn div(self, other: u64) -> u64 {
        if other == 0 {
            0
        } else {
            self / other
        }
    }

    fn rem(self, other: u64) -> u64 {
        if other == 0 {
            self
        } else {
            self % other
        }
    }

    fn sqrt(self) -> u64 {
        self
    }

    fn hypot(self, other: u64) -> u64 {
        self.wrapping_add(other)
    }

    fn sin(self) -> u64 {
        0
    }

    fn cos(self) -> u64 {
        1
    }

    fn atan2(self, x: u64) -> u64 {
        0
    }

    fn round(self) -> u64 {
        self
    }

    fn trunc_byte(self) -> u8 {
        (self % 256) as u8
    }

    fn lex_cmp(self, other: u64) -> Option<i8> {
        if self < other {
            Some(-1)
        } else if self == other {
            Some(0)
        } else {
            Some(1)
        }
    }

    proof fn law_add_comm(a: u64, b: u64) {
    }

    proof fn law_mul_comm(a: u64, b: u64) {
        assert(a as nat * b as nat == b as nat * a as nat) by (nonlinear_arith);
    }

    proof fn law_neg_zero() {
    }

    proof fn law_neg_neg(a: u64) {
    }

    proof fn law_neg_add(a: u64, b: u64) {
    }

    proof fn law_mul_neg_left(a: u64, b: u64) {
        lemma_u64_mul_neg_left(a, b);
    }

}

impl Demote<u64> for u64 {
    open spec fn m_demote(self) -> u64 {
        self
    }

    fn demote(self) -> u64 {
        self
    }
}

/// In the ring modulo `2^64`, multiplying by a negated factor negates the
/// product.
proof fn lemma_u64_mul_neg_left(a: u64, b: u64)
    ensures
        (0u64.wrapping_sub(a)).wrapping_mul(b) == 0u64.wrapping_sub(a.wrapping_mul(b)),
{
    let m: int = 0x1_0000_0000_0000_0000;
    if a == 0 {
        assert((0u64.wrapping_sub(0u64)).wrapping_mul(b) == 0u64.wrapping_mul(b));
        assert(0u64 as nat * b as nat == 0) by (nonlinear_arith);
    } else {
        let na: int = m - a;
        let p: int = a as int * b as int;
        assert(na * b == m * b - p) by (nonlinear_arith)
            requires
                na == m - a && p == a as int * b as int,
        ;
        assert(0 <= p) by (nonlinear_arith)
            requires
                p == a as int * b as int && a >= 0 && b >= 0,
        ;
        vstd::arithmetic::div_mod::lemma_mod_multiples_vanish(b as int, -p, m);
        assert((m * b + -p) % m == (-p) % m);
        assert(na * b == m * b + -p);
        let r: int = p % m;
        vstd::arithmetic::div_mod::lemma_fundamental_div_mod(p, m);
        let q: int = p / m;
        assert(p == q * m + r);
        vstd::arithmetic::div_mod::lemma_mod_multiples_vanish(-q - 1, m - r, m);
        assert((m * (-q - 1) + (m - r)) % m == (m - r) % m);
        assert(m * (-q - 1) + (m - r) == -p) by (nonlinear_arith)
            requires
                p == q * m + r,
        ;
        if r == 0 {
            assert((m - r) % m == 0);
            assert((na * b) % m == 0);
            assert(0u64.wrapping_sub(a.wrapping_mul(b)) == 0);
            assert((0u64.wrapping_sub(a)).wrapping_mul(b) as int == (na * b) % m);
        } else {
            vstd::arithmetic::div_mod::lemma_small_mod((m - r) as nat, m as nat);
            assert((na * b) % m == m - r);
            assert((0u64.wrapping_sub(a)).wrapping_mul(b) as int == (na * b) % m);
            assert(0u64.wrapping_sub(a.wrapping_mul(b)) as int == m - r);
        }
    }
}

} // verus!
