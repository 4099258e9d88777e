//! The two complex-number value types and the quantized-phase table.
//!
//! [`Rect`] is the rectangular form over an abstract scalar; it carries
//! the whole algebra (the polar form has no addition, so every summation
//! in the crate accumulates in `Rect`).  [`Polar`] is the lossy form: a
//! magnitude and an 8-bit quantized phase, where the unsigned byte `p`
//! stands for the angle `p/256` of a turn.  Phase arithmetic is exact:
//! multiplication adds phase bytes modulo 256 and conjugation negates
//! them modulo 256.  [`PhaseTable`] is the lookup table that maps each of
//! the 256 phase codes to its fraction of a turn, its angle in radians,
//! and its sine and cosine.

use vstd::prelude::*;

use crate::scalar::{Scalar, Demote};

verus! {

/// A rectangular complex number over the scalar `T`.
#[derive(Clone, Copy, Debug, PartialEq)]
pub struct Rect<T> {
    pub real: T,
    pub imag: T,
}

/// The rectangular zero.
pub open spec fn rect_zero<T: Scalar>() -> Rect<T> {
    Rect { real: T::m_zero(), imag: T::m_zero() }
}

/// The rectangular one.
pub open spec fn rect_one<T: Scalar>() -> Rect<T> {
    Rect { real: T::m_one(), imag: T::m_zero() }
}

/// The imaginary unit.
pub open spec fn rect_i<T: Scalar>() -> Rect<T> {
    Rect { real: T::m_zero(), imag: T::m_one() }
}

/// The unit complex number at the angle `radians`.
pub open spec fn rect_from_phase<T: Scalar>(radians: T) -> Rect<T> {
    Rect { real: radians.m_cos(), imag: radians.m_sin() }
}

/// Componentwise sum.
pub open spec fn rect_add<T: Scalar>(a: Rect<T>, b: Rect<T>) -> Rect<T> {
    Rect { real: a.real.m_add(b.real), imag: a.imag.m_add(b.imag) }
}

/// Componentwise difference.
pub open spec fn rect_sub<T: Scalar>(a: Rect<T>, b: Rect<T>) -> Rect<T> {
    Rect { real: a.real.m_sub(b.real), imag: a.imag.m_sub(b.imag) }
}

/// The complex product.
pub open spec fn rect_mul<T: Scalar>(a: Rect<T>, b: Rect<T>) -> Rect<T> {
    Rect {
        real: a.real.m_mul(b.real).m_sub(a.imag.m_mul(b.imag)),
        imag: a.real.m_mul(b.imag).m_add(a.imag.m_mul(b.real)),
    }
}

/// The complex conjugate.
pub open spec fn rect_conj<T: Scalar>(a: Rect<T>) -> Rect<T> {
    Rect { real: a.real, imag: a.imag.m_neg() }
}

/// The squared norm `real^2 + imag^2`.
pub open spec fn rect_sqnorm<T: Scalar>(a: Rect<T>) -> T {
    a.real.m_mul(a.real).m_add(a.imag.m_mul(a.imag))
}

/// The magnitude, as the hypotenuse of the two components.
pub open spec fn rect_abs<T: Scalar>(a: Rect<T>) -> T {
    a.real.m_hypot(a.imag)
}

/// Lexicographic comparison of the pairs `(real, imag)`.
pub open spec fn rect_lexical_cmp<T: Scalar>(a: Rect<T>, b: Rect<T>) -> Option<i8> {
    if a.real.m_lex_cmp(b.real) == Some(0i8) {
        a.imag.m_lex_cmp(b.imag)
    } else {
        a.real.m_lex_cmp(b.real)
    }
}

impl<T: Scalar> Rect<T> {
    /// The additive identity.
    pub fn zero() -> (r: Rect<T>)
        ensures
            r == rect_zero::<T>(),
    {
        Rect { real: T::zero(), imag: T::zero() }
    }

    /// The multiplicative identity.
    pub fn one() -> (r: Rect<T>)
        ensures
            r == rect_one::<T>(),
    {
        Rect { real: T::one(), imag: T::zero() }
    }

    /// The imaginary unit.
    pub fn i() -> (r: Rect<T>)
        ensures
            r == rect_i::<T>(),
    {
        Rect { real: T::zero(), imag: T::one() }
    }

    /// The unit complex number at the angle `radians`.
    pub fn from_phase(radians: T) -> (r: Rect<T>)
        ensures
            r == rect_from_phase(radians),
    {
        Rect { real: radians.cos(), imag: radians.sin() }
    }

    /// The squared norm `real^2 + imag^2`.
    pub fn sqnorm(self) -> (r: T)
        ensures
            r == rect_sqnorm(self),
    {
        self.real.mul(self.real).add(self.imag.mul(self.imag))
    }

    /// The magnitude.
    pub fn abs(self) -> (r: T)
        ensures
            r == rect_abs(self),
    {
        self.real.hypot(self.imag)
    }

    /// The complex conjugate.
    pub fn conj(self) -> (r: Rect<T>)
        ensures
            r == rect_conj(self),
    {
        Rect { real: self.real, imag: self.imag.neg() }
    }

    /// Sum of two complex numbers.
    pub fn add(self, other: Rect<T>) -> (r: Rect<T>)
        ensures
            r == rect_add(self, other),
    {
        Rect { real: self.real.add(other.real), imag: self.imag.add(other.imag) }
    }

    /// Difference of two complex numbers.
    pub fn sub(self, other: Rect<T>) -> (r: Rect<T>)
        ensures
            r == rect_sub(self, other),
    {
        Rect { real: self.real.sub(other.real), imag: self.imag.sub(other.imag) }
    }

    /// Product of two complex numbers.
    pub fn mul(self, other: Rect<T>) -> (r: Rect<T>)
        ensures
            r == rect_mul(self, other),
    {
        Rect {
            real: self.real.mul(other.real).sub(self.imag.mul(other.imag)),
            imag: self.real.mul(other.imag).add(self.imag.mul(other.real)),
        }
    }

    /// Deterministic ordering for tests and debugging only: complex
    /// numbers have no meaningful total order.
    pub fn lexical_cmp(self, other: Rect<T>) -> (r: Option<i8>)
        ensures
            r == rect_lexical_cmp(self, other),
    {
        let first = self.real.lex_cmp(other.real);
        if first == Some(0i8) {
            self.imag.lex_cmp(other.imag)
        } else {
            first
        }
    }
}

impl<T: Scalar> From<T> for Rect<T> {
    /// The purely real complex number with this value.
    fn from(x: T) -> (r: Rect<T>) {
        Rect { real: x, imag: T::zero() }
    }
}

impl<T: Scalar> vstd::std_specs::convert::FromSpecImpl<T> for Rect<T> {
    open spec fn obeys_from_spec() -> bool {
        true
    }

    open spec fn from_spec(x: T) -> Rect<T> {
        Rect { real: x, imag: T::m_zero() }
    }
}

/// A lossy complex number: a magnitude and an 8-bit quantized phase.
///
/// The phase byte `p` stands for the angle `p/256` of a full turn.
#[derive(Clone, Copy, Debug, PartialEq)]
pub struct Polar<A> {
    pub abs: A,
    pub phase: u8,
}

/// The polar zero: zero magnitude at phase zero.
pub open spec fn polar_zero<A: Scalar>() -> Polar<A> {
    Polar { abs: A::m_zero(), phase: 0u8 }
}

/// The polar one: unit magnitude at phase zero.
pub open spec fn polar_one<A: Scalar>() -> Polar<A> {
    Polar { abs: A::m_one(), phase: 0u8 }
}

/// The polar conjugate: the phase byte is negated modulo 256.
pub open spec fn polar_conj<A: Scalar>(p: Polar<A>) -> Polar<A> {
    Polar { abs: p.abs, phase: 0u8.wrapping_sub(p.phase) }
}

/// The polar product: magnitudes multiply, phase bytes add modulo 256.
pub open spec fn polar_mul<A: Scalar>(a: Polar<A>, b: Polar<A>) -> Polar<A> {
    Polar { abs: a.abs.m_mul(b.abs), phase: a.phase.wrapping_add(b.phase) }
}

/// The squared norm of a polar value.
pub open spec fn polar_sqnorm<A: Scalar>(p: Polar<A>) -> A {
    p.abs.m_mul(p.abs)
}

/// The rectangular form of a polar value, read off a phase table.
pub open spec fn polar_to_rect<A: Scalar>(p: Polar<A>, t: TableModel<A>) -> Rect<A> {
    Rect {
        real: p.abs.m_mul(t.cos[p.phase as int]),
        imag: p.abs.m_mul(t.sin[p.phase as int]),
    }
}

impl<A: Scalar> Polar<A> {
    /// The additive identity.
    pub fn zero() -> (r: Polar<A>)
        ensures
            r == polar_zero::<A>(),
    {
        Polar { abs: A::zero(), phase: 0 }
    }

    /// The multiplicative identity.
    pub fn one() -> (r: Polar<A>)
        ensures
            r == polar_one::<A>(),
    {
        Polar { abs: A::one(), phase: 0 }
    }

    /// The unit-magnitude value at the given phase code.
    pub fn from_phase_byte(byte: u8) -> (r: Polar<A>)
        ensures
            r.abs == A::m_one(),
            r.phase == byte,
    {
        Polar { abs: A::one(), phase: byte }
    }

    /// The squared norm `abs^2`.
    pub fn sqnorm(self) -> (r: A)
        ensures
            r == polar_sqnorm(self),
    {
        self.abs.mul(self.abs)
    }

    /// The conjugate: the phase byte is negated modulo 256, exactly.
    pub fn conj(self) -> (r: Polar<A>)
        ensures
            r == polar_conj(self),
    {
        Polar { abs: self.abs, phase: 0u8.wrapping_sub(self.phase) }
    }

    /// The product: magnitudes multiply, phase bytes add modulo 256,
    /// exactly.
    pub fn mul(self, other: Polar<A>) -> (r: Polar<A>)
        ensures
            r == polar_mul(self, other),
    {
        Polar {
            abs: self.abs.mul(other.abs),
            phase: self.phase.wrapping_add(other.phase),
        }
    }

    /// The rectangular form, via the table's sine and cosine for this
    /// phase code.  Summing polar values goes through this conversion,
    /// since phase-quantized values are not closed under addition.
    pub fn to_rect(self, table: &PhaseTable<A>) -> (r: Rect<A>)
        requires
            table.wf(),
        ensures
            r == polar_to_rect(self, table@),
    {
        Rect {
            real: self.abs.mul(table.cos(self.phase)),
            imag: self.abs.mul(table.sin(self.phase)),
        }
    }
}

impl<A: Scalar> From<A> for Polar<A> {
    /// The phaseless polar value with this magnitude.
    fn from(x: A) -> (r: Polar<A>) {
        Polar { abs: x, phase: 0 }
    }
}

impl<A: Scalar> vstd::std_specs::convert::FromSpecImpl<A> for Polar<A> {
    open spec fn obeys_from_spec() -> bool {
        true
    }

    open spec fn from_spec(x: A) -> Polar<A> {
        Polar { abs: x, phase: 0u8 }
    }
}

/// Conjugation of a polar value is an involution, exactly.
pub proof fn lemma_polar_conj_involution<A: Scalar>(p: Polar<A>)
    ensures
        polar_conj(polar_conj(p)) == p,
{
}

/// Conjugation distributes over the rectangular sum.
pub proof fn lemma_rect_conj_add<T: Scalar>(p: Rect<T>, q: Rect<T>)
    ensures
        rect_add(rect_conj(p), rect_conj(q)) == rect_conj(rect_add(p, q)),
{
    T::law_neg_add(p.imag, q.imag);
}

/// Conjugation sends a phase byte to its negation modulo 256.
pub proof fn lemma_polar_conj_negates_phase<A: Scalar>(p: Polar<A>)
    ensures
        (polar_conj(p).phase + p.phase) % 256 == 0,
{
}

/// The product's phase byte is the sum of the factors' phase bytes
/// modulo 256: the wraparound is exact and lossless.
pub proof fn lemma_polar_mul_adds_phases<A: Scalar>(a: Polar<A>, b: Polar<A>)
    ensures
        polar_mul(a, b).phase == (a.phase + b.phase) % 256,
{
}

/// The mathematical content of the phase table: entry `i` holds the
/// fraction `i/256` of a turn.
pub open spec fn table_tau_at<A: Scalar>(i: int) -> A {
    A::m_of_usize(i as usize).m_div(A::m_of_usize(256))
}

/// Entry `i` of the radians column: the fraction of a turn scaled by
/// `2 * pi`.
pub open spec fn table_radians_at<A: Scalar>(i: int) -> A {
    table_tau_at::<A>(i).m_mul(A::m_of_usize(2)).m_mul(A::m_pi())
}

/// Entry `i` of the sine column.
pub open spec fn table_sin_at<A: Scalar>(i: int) -> A {
    table_radians_at::<A>(i).m_sin()
}

/// Entry `i` of the cosine column.
pub open spec fn table_cos_at<A: Scalar>(i: int) -> A {
    table_radians_at::<A>(i).m_cos()
}

/// The abstract contents of a phase table.
pub ghost struct TableModel<A> {
    pub tau: Seq<A>,
    pub radians: Seq<A>,
    pub sin: Seq<A>,
    pub cos: Seq<A>,
}

impl<A> TableModel<A> {
    /// All four columns have one entry per phase code.
    pub open spec fn wf(self) -> bool {
        &&& self.tau.len() == 256
        &&& self.radians.len() == 256
        &&& self.sin.len() == 256
        &&& self.cos.len() == 256
    }
}

/// A table holding, for each of the 256 phase codes, its fraction of a
/// turn, its angle in radians, and that angle's sine and cosine.
///
/// The table is built once by [`PhaseTable::compute`] and passed down to
/// the operations that need it; an embedder that wants a process-wide
/// table keeps a lazily-initialized instance on its side and hands out
/// shared references.
pub struct PhaseTable<A> {
    tau: Vec<A>,
    radians: Vec<A>,
    sin: Vec<A>,
    cos: Vec<A>,
}

impl<A> View for PhaseTable<A> {
    type V = TableModel<A>;

    closed spec fn view(&self) -> TableModel<A> {
        TableModel { tau: self.tau@, radians: self.radians@, sin: self.sin@, cos: self.cos@ }
    }
}

/// A table whose every entry holds the documented value for its phase
/// code.
pub open spec fn table_complete<A: Scalar>(t: TableModel<A>) -> bool {
    &&& t.wf()
    &&& forall|i: int|
        0 <= i < 256 ==> #[trigger] t.tau[i] == table_tau_at::<A>(i)
    &&& forall|i: int|
        0 <= i < 256 ==> #[trigger] t.radians[i] == table_radians_at::<A>(i)
    &&& forall|i: int|
        0 <= i < 256 ==> #[trigger] t.sin[i] == table_sin_at::<A>(i)
    &&& forall|i: int|
        0 <= i < 256 ==> #[trigger] t.cos[i] == table_cos_at::<A>(i)
}

/// The quantization of a continuous angle: divide by the width of one
/// phase bucket (the angle of code 1), round to the nearest integer, and
/// reduce modulo 256 into `[0, 256)`.
pub open spec fn nearest_phase_spec<A: Scalar, T: Demote<A>>(t: TableModel<A>, phase: T) -> u8 {
    let x0 = phase.m_demote().m_div(t.radians[1]);
    let x1 = x0.m_round();
    let x2 = x1.m_rem(A::m_of_usize(256)).m_add(A::m_of_usize(256)).m_rem(A::m_of_usize(256));
    x2.m_trunc_byte()
}

impl<A: Scalar> PhaseTable<A> {
    /// The table is fully populated.
    pub open spec fn wf(&self) -> bool {
        self@.wf()
    }

    /// Build the table: 256 entries, each derived from its index.
    pub fn compute() -> (t: PhaseTable<A>)
        ensures
            t.wf(),
            table_complete(t@),
    {
        let mut tau: Vec<A> = Vec::new();
        let mut radians: Vec<A> = Vec::new();
        let mut sin: Vec<A> = Vec::new();
        let mut cos: Vec<A> = Vec::new();
        let two_pi_factor: A = A::of_usize(2);
        let pi: A = A::pi();
        let denom: A = A::of_usize(256);
        let mut i: usize = 0;
        while i < 256
            invariant
                0 <= i <= 256,
                tau@.len() == i,
                radians@.len() == i,
                sin@.len() == i,
                cos@.len() == i,
                two_pi_factor == A::m_of_usize(2),
                pi == A::m_pi(),
                denom == A::m_of_usize(256),
                forall|j: int| 0 <= j < i ==> #[trigger] tau@[j] == table_tau_at::<A>(j),
                forall|j: int| 0 <= j < i ==> #[trigger] radians@[j] == table_radians_at::<A>(j),
                forall|j: int| 0 <= j < i ==> #[trigger] sin@[j] == table_sin_at::<A>(j),
                forall|j: int| 0 <= j < i ==> #[trigger] cos@[j] == table_cos_at::<A>(j),
            decreases 256 - i,
        {
            let f: A = A::of_usize(i).div(denom);
            let r: A = f.mul(two_pi_factor).mul(pi);
            tau.push(f);
            radians.push(r);
            sin.push(r.sin());
            cos.push(r.cos());
            i = i + 1;
        }
        PhaseTable { tau, radians, sin, cos }
    }

    /// The sine of the angle that `phase` stands for.
    pub fn sin(&self, phase: u8) -> (r: A)
        requires
            self.wf(),
        ensures
            r == self@.sin[phase as int],
    {
        self.sin[phase as usize]
    }

    /// The cosine of the angle that `phase` stands for.
    pub fn cos(&self, phase: u8) -> (r: A)
        requires
            self.wf(),
        ensures
            r == self@.cos[phase as int],
    {
        self.cos[phase as usize]
    }

    /// The angle, in radians, that `phase` stands for.
    pub fn radians(&self, phase: u8) -> (r: A)
        requires
            self.wf(),
        ensures
            r == self@.radians[phase as int],
    {
        self.radians[phase as usize]
    }

    /// The fraction of a full turn that `phase` stands for.
    pub fn fraction(&self, phase: u8) -> (r: A)
        requires
            self.wf(),
        ensures
            r == self@.tau[phase as int],
    {
        self.tau[phase as usize]
    }

    /// The phase code nearest to the angle `phase`, in radians: the
    /// single source of truth for quantizing a continuous phase.
    pub fn nearest_phase<T: Demote<A>>(&self, phase: T) -> (r: u8)
        requires
            self.wf(),
        ensures
            r == nearest_phase_spec(self@, phase),
    {
        let x = phase.demote().div(self.radians(1));
        let x = x.round();
        let n256 = A::of_usize(256);
        let x = x.rem(n256).add(n256).rem(n256);
        x.trunc_byte()
    }
}

} // verus!
