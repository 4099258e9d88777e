//! The compact quantized-phase representation: kets and bases whose
//! amplitudes are [`Polar`] values, a reduced-precision magnitude plus
//! an 8-bit phase code.
//!
//! A ket stores its amplitudes as two parallel arrays, the magnitudes
//! and the phase bytes.  A basis stores `rank * width` magnitudes and as
//! many phase bytes in two flat, ket-major arrays.  Summation has no
//! polar form, so the inner product promotes each term to [`Rect`]
//! through a phase table before accumulating.

use vstd::prelude::*;
use vstd::slice::{slice_index_get, slice_subrange, slice_to_vec};

use crate::scalar::Scalar;
use crate::complex::{
    Rect, Polar, rect_zero, rect_add, rect_conj, rect_sqnorm, polar_conj, polar_mul,
    polar_to_rect, PhaseTable, TableModel, lemma_rect_conj_add,
};
use crate::lossless::sq_sum_partial;

verus! {

/// The abstract contents of a compact ket: parallel sequences of
/// magnitudes and phase codes.
#[verifier::ext_equal]
pub ghost struct KetModel<A> {
    pub abs: Seq<A>,
    pub phase: Seq<u8>,
}

impl<A> KetModel<A> {
    /// The two component sequences pair up.
    pub open spec fn wf(self) -> bool {
        self.abs.len() == self.phase.len()
    }

    /// Number of amplitudes.
    pub open spec fn len(self) -> nat {
        self.abs.len()
    }

    /// The `i`-th amplitude.
    pub open spec fn at(self, i: int) -> Polar<A> {
        Polar { abs: self.abs[i], phase: self.phase[i] }
    }
}

/// The inner product `<a|b>` truncated to the first `n` amplitudes: a
/// left fold, in index order, of the terms `conj(a_i) * b_i`, each
/// promoted to rectangular form through the table before summing.
pub open spec fn dot_partial<A: Scalar>(
    a: KetModel<A>,
    b: KetModel<A>,
    t: TableModel<A>,
    n: int,
) -> Rect<A>
    decreases n,
{
    if n <= 0 {
        rect_zero::<A>()
    } else {
        rect_add(
            dot_partial(a, b, t, n - 1),
            polar_to_rect(polar_mul(polar_conj(a.at(n - 1)), b.at(n - 1)), t),
        )
    }
}

/// The inner product `<a|b>`, with `a` as the bra.
pub open spec fn dot_spec<A: Scalar>(a: KetModel<A>, b: KetModel<A>, t: TableModel<A>) -> Rect<A> {
    dot_partial(a, b, t, a.len() as int)
}

/// The squared norm `<k|k>`, computed directly from the magnitudes: the
/// squared magnitudes summed in index order.
pub open spec fn sqnorm_spec<A: Scalar>(k: KetModel<A>) -> A {
    sq_sum_partial(k.abs, A::m_zero(), k.abs.len() as int)
}

/// The norm: the square root of the squared norm.
pub open spec fn norm_spec<A: Scalar>(k: KetModel<A>) -> A {
    sqnorm_spec(k).m_sqrt()
}

/// The overlap `<a|b><b|a>`: the squared norm of the inner product.
pub open spec fn overlap_spec<A: Scalar>(a: KetModel<A>, b: KetModel<A>, t: TableModel<A>) -> A {
    rect_sqnorm(dot_spec(a, b, t))
}

/// Every amplitude multiplied on the right by the polar factor `c`.
pub open spec fn scale_spec<A: Scalar>(k: KetModel<A>, c: Polar<A>) -> KetModel<A> {
    KetModel {
        abs: Seq::new(k.abs.len(), |i: int| polar_mul(k.at(i), c).abs),
        phase: Seq::new(k.abs.len(), |i: int| polar_mul(k.at(i), c).phase),
    }
}

/// Every magnitude divided by the real factor; phases are untouched.
pub open spec fn div_real_spec<A: Scalar>(k: KetModel<A>, factor: A) -> KetModel<A> {
    KetModel { abs: Seq::new(k.abs.len(), |i: int| k.abs[i].m_div(factor)), phase: k.phase }
}

/// The ket scaled by the reciprocal of its own norm.
pub open spec fn normalized_spec<A: Scalar>(k: KetModel<A>) -> KetModel<A> {
    div_real_spec(k, norm_spec(k))
}

/// An owned compact ket.
#[derive(Debug, Clone)]
pub struct Ket<A> {
    abs: Vec<A>,
    phase: Vec<u8>,
}

/// A borrowed view of a compact ket; valid as long as the storage it
/// was derived from is alive and unmodified.
#[derive(Debug, Clone, Copy)]
pub struct KetRef<'a, A> {
    abs: &'a [A],
    phase: &'a [u8],
}

impl<A> View for Ket<A> {
    type V = KetModel<A>;

    closed spec fn view(&self) -> KetModel<A> {
        KetModel { abs: self.abs@, phase: self.phase@ }
    }
}

impl<A> View for KetRef<'_, A> {
    type V = KetModel<A>;

    closed spec fn view(&self) -> KetModel<A> {
        KetModel { abs: self.abs@, phase: self.phase@ }
    }
}

impl<'a, A: Scalar> KetRef<'a, A> {
    /// Construct from two equal-length component slices; the equal
    /// length is the caller's obligation, not a runtime check.
    pub fn new(abs: &'a [A], phase: &'a [u8]) -> (r: KetRef<'a, A>)
        requires
            abs@.len() == phase@.len(),
        ensures
            r@ == (KetModel { abs: abs@, phase: phase@ }),
            r@.wf(),
    {
        KetRef { abs, phase }
    }

    /// The `i`-th amplitude, reconstructed as a value from the two
    /// backing arrays.
    pub fn at(&self, i: usize) -> (r: Polar<A>)
        requires
            self@.wf(),
            i < self@.len(),
        ensures
            r == self@.at(i as int),
    {
        Polar { abs: *slice_index_get(self.abs, i), phase: *slice_index_get(self.phase, i) }
    }

    /// Number of amplitudes.
    pub fn len(&self) -> (r: usize)
        ensures
            r == self@.len(),
    {
        self.abs.len()
    }

    /// The magnitudes.
    pub fn abs(&self) -> (r: &'a [A])
        ensures
            r@ == self@.abs,
    {
        self.abs
    }

    /// The phase codes.
    pub fn phase(&self) -> (r: &'a [u8])
        ensures
            r@ == self@.phase,
    {
        self.phase
    }

    /// Computes `<self|self>` directly from the magnitudes, with no
    /// table lookups: the squared magnitudes summed in index order.
    pub fn sqnorm(&self) -> (r: A)
        requires
            self@.wf(),
        ensures
            r == sqnorm_spec(self@),
    {
        let mut acc: A = A::zero();
        let n = self.abs.len();
        let mut i: usize = 0;
        while i < n
            invariant
                0 <= i <= n,
                n == self.abs@.len(),
                acc == sq_sum_partial(self.abs@, A::m_zero(), i as int),
            decreases n - i,
        {
            let x: A = *slice_index_get(self.abs, i);
            acc = acc.add(x.mul(x));
            i = i + 1;
        }
        acc
    }

    /// The norm `sqrt(<self|self>)`.
    pub fn norm(&self) -> (r: A)
        requires
            self@.wf(),
        ensures
            r == norm_spec(self@),
    {
        self.sqnorm().sqrt()
    }

    /// Computes `<self|other>` (`self` becomes the bra), promoting each
    /// term to rectangular form through the table before summing.
    pub fn dot(self, other: KetRef<A>, table: &PhaseTable<A>) -> (r: Rect<A>)
        requires
            self@.wf(),
            other@.wf(),
            self@.len() == other@.len(),
            table.wf(),
        ensures
            r == dot_spec(self@, other@, table@),
    {
        let n = self.abs.len();
        let mut acc: Rect<A> = Rect::zero();
        let mut i: usize = 0;
        while i < n
            invariant
                0 <= i <= n,
                n == self@.len(),
                self@.wf(),
                other@.wf(),
                self@.len() == other@.len(),
                table.wf(),
                acc == dot_partial(self@, other@, table@, i as int),
            decreases n - i,
        {
            acc = acc.add(self.at(i).conj().mul(other.at(i)).to_rect(table));
            i = i + 1;
        }
        acc
    }

    /// Computes the overlap `<self|other><other|self>`.
    pub fn overlap(&self, other: KetRef<A>, table: &PhaseTable<A>) -> (r: A)
        requires
            self@.wf(),
            other@.wf(),
            self@.len() == other@.len(),
            table.wf(),
        ensures
            r == overlap_spec(self@, other@, table@),
    {
        self.dot(other, table).sqnorm()
    }

    /// An owned copy of this ket.
    pub fn to_owned(&self) -> (r: Ket<A>)
        ensures
            r@ == self@,
    {
        Ket { abs: slice_to_vec(self.abs), phase: slice_to_vec(self.phase) }
    }

    /// Every amplitude multiplied by the polar factor `c`.
    pub fn scale(&self, c: Polar<A>) -> (r: Ket<A>)
        requires
            self@.wf(),
        ensures
            r@ == scale_spec(self@, c),
            r@.wf(),
    {
        let n = self.abs.len();
        let mut out_abs: Vec<A> = Vec::new();
        let mut out_phase: Vec<u8> = Vec::new();
        let mut i: usize = 0;
        while i < n
            invariant
                0 <= i <= n,
                n == self@.len(),
                self@.wf(),
                out_abs@.len() == i,
                out_phase@.len() == i,
                forall|j: int| 0 <= j < i ==> #[trigger] out_abs@[j] == polar_mul(self@.at(j), c).abs,
                forall|j: int|
                    0 <= j < i ==> #[trigger] out_phase@[j] == polar_mul(self@.at(j), c).phase,
            decreases n - i,
        {
            let prod = self.at(i).mul(c);
            out_abs.push(prod.abs);
            out_phase.push(prod.phase);
            i = i + 1;
        }
        let r = Ket { abs: out_abs, phase: out_phase };
        proof {
            assert(r@.abs =~= scale_spec(self@, c).abs);
            assert(r@.phase =~= scale_spec(self@, c).phase);
            assert(r@ =~= scale_spec(self@, c));
        }
        r
    }

    /// A freshly-owned normalized copy of this ket.  Normalizing a
    /// zero-norm ket is the caller's responsibility to avoid.
    pub fn to_normalized(&self) -> (r: Ket<A>)
        requires
            self@.wf(),
        ensures
            r@ == normalized_spec(self@),
            r@.wf(),
    {
        self.to_owned().into_normalized()
    }
}

impl<A: Scalar> Ket<A> {
    /// Construct from two equal-length component arrays; the equal
    /// length is the caller's obligation.
    pub fn new(abs: Vec<A>, phase: Vec<u8>) -> (r: Ket<A>)
        requires
            abs@.len() == phase@.len(),
        ensures
            r@ == (KetModel { abs: abs@, phase: phase@ }),
            r@.wf(),
    {
        Ket { abs, phase }
    }

    /// A borrowed view of this ket.
    pub fn as_ref(&self) -> (r: KetRef<A>)
        ensures
            r@ == self@,
    {
        KetRef { abs: self.abs.as_slice(), phase: self.phase.as_slice() }
    }

    /// Number of amplitudes.
    pub fn len(&self) -> (r: usize)
        ensures
            r == self@.len(),
    {
        self.abs.len()
    }

    /// The magnitudes.
    pub fn abs(&self) -> (r: &[A])
        ensures
            r@ == self@.abs,
    {
        self.abs.as_slice()
    }

    /// The phase codes.
    pub fn phase(&self) -> (r: &[u8])
        ensures
            r@ == self@.phase,
    {
        self.phase.as_slice()
    }

    /// Computes `<self|self>`.
    pub fn sqnorm(&self) -> (r: A)
        requires
            self@.wf(),
        ensures
            r == sqnorm_spec(self@),
    {
        self.as_ref().sqnorm()
    }

    /// The norm `sqrt(<self|self>)`.
    pub fn norm(&self) -> (r: A)
        requires
            self@.wf(),
        ensures
            r == norm_spec(self@),
    {
        self.as_ref().norm()
    }

    /// Computes `<self|other>` (`self` becomes the bra).
    pub fn dot(&self, other: &Ket<A>, table: &PhaseTable<A>) -> (r: Rect<A>)
        requires
            self@.wf(),
            other@.wf(),
            self@.len() == other@.len(),
            table.wf(),
        ensures
            r == dot_spec(self@, other@, table@),
    {
        self.as_ref().dot(other.as_ref(), table)
    }

    /// Computes the overlap `<self|other><other|self>`.
    pub fn overlap(&self, other: &Ket<A>, table: &PhaseTable<A>) -> (r: A)
        requires
            self@.wf(),
            other@.wf(),
            self@.len() == other@.len(),
            table.wf(),
        ensures
            r == overlap_spec(self@, other@, table@),
    {
        self.as_ref().overlap(other.as_ref(), table)
    }

    /// The `i`-th amplitude as a value.
    pub fn at(&self, i: usize) -> (r: Polar<A>)
        requires
            self@.wf(),
            i < self@.len(),
        ensures
            r == self@.at(i as int),
    {
        self.as_ref().at(i)
    }

    /// A normalized copy of this ket.
    pub fn to_normalized(&self) -> (r: Ket<A>)
        requires
            self@.wf(),
        ensures
            r@ == normalized_spec(self@),
            r@.wf(),
    {
        self.as_ref().to_normalized()
    }

    /// This ket, normalized in place: the magnitudes are divided by the
    /// norm, the phases stay.
    pub fn into_normalized(self) -> (r: Ket<A>)
        requires
            self@.wf(),
        ensures
            r@ == normalized_spec(self@),
            r@.wf(),
    {
        let n = self.norm();
        self.div_real(n)
    }

    /// Every magnitude divided by the real factor.
    fn div_real(self, factor: A) -> (r: Ket<A>)
        requires
            self@.wf(),
        ensures
            r@ == div_real_spec(self@, factor),
            r@.wf(),
    {
        let n = self.abs.len();
        let mut out_abs: Vec<A> = Vec::new();
        let mut i: usize = 0;
        while i < n
            invariant
                0 <= i <= n,
                n == self@.len(),
                self@.wf(),
                out_abs@.len() == i,
                forall|j: int| 0 <= j < i ==> #[trigger] out_abs@[j] == self@.abs[j].m_div(factor),
            decreases n - i,
        {
            out_abs.push((*slice_index_get(self.abs.as_slice(), i)).div(factor));
            i = i + 1;
        }
        let r = Ket { abs: out_abs, phase: self.phase };
        proof {
            assert(r@.abs =~= div_real_spec(self@, factor).abs);
            assert(r@ =~= div_real_spec(self@, factor));
        }
        r
    }
}

/// The abstract contents of a compact basis: the common ket width and
/// the two flat, ket-major component arrays.
#[verifier::ext_equal]
pub ghost struct BasisModel<A> {
    pub width: usize,
    pub abs: Seq<A>,
    pub phase: Seq<u8>,
}

impl<A> BasisModel<A> {
    /// The layout invariant: a positive width, paired-up component
    /// arrays, and a total length holding a whole number of kets.
    pub open spec fn wf(self) -> bool {
        &&& 1 <= self.width
        &&& self.abs.len() == self.phase.len()
        &&& self.abs.len() as int % (self.width as int) == 0
    }

    /// Number of kets.
    pub open spec fn rank(self) -> int {
        self.abs.len() as int / (self.width as int)
    }

    /// The contents of the `i`-th ket.
    pub open spec fn ket(self, i: int) -> KetModel<A> {
        let w = self.width as int;
        KetModel {
            abs: self.abs.subrange(w * i, w * (i + 1)),
            phase: self.phase.subrange(w * i, w * (i + 1)),
        }
    }
}

/// A set of compact kets of common width, stored contiguously.
#[derive(Debug, Clone, PartialEq)]
pub struct Basis<A> {
    width: usize,
    abs: Vec<A>,
    phase: Vec<u8>,
}

impl<A> View for Basis<A> {
    type V = BasisModel<A>;

    closed spec fn view(&self) -> BasisModel<A> {
        BasisModel { width: self.width, abs: self.abs@, phase: self.phase@ }
    }
}

/// The raw counterpart of [`Basis`], carrying no invariant: the shape
/// that crosses a serialization boundary.
#[derive(Debug, Clone, PartialEq)]
pub struct Cereal<A> {
    pub width: usize,
    pub abs: Vec<A>,
    pub phase: Vec<u8>,
}

impl<A: Scalar> Cereal<A> {
    /// The layout invariant this raw value must satisfy to become a
    /// checked basis.
    pub open spec fn valid(self) -> bool {
        &&& 1 <= self.width
        &&& self.abs@.len() == self.phase@.len()
        &&& self.abs@.len() as int % (self.width as int) == 0
    }

    /// Whether the raw value satisfies the layout invariant; the test a
    /// decoder runs before converting.
    pub fn is_valid(&self) -> (r: bool)
        ensures
            r == self.valid(),
    {
        if self.width < 1 {
            return false;
        }
        if self.abs.len() != self.phase.len() {
            return false;
        }
        self.abs.len() % self.width == 0
    }

    /// Convert into a checked basis; the invariant is the caller's to
    /// establish.
    pub fn validate(self) -> (r: Basis<A>)
        requires
            self.valid(),
        ensures
            r@ == (BasisModel { width: self.width, abs: self.abs@, phase: self.phase@ }),
            r@.wf(),
    {
        let Cereal { width, abs, phase } = self;
        Basis { width, abs, phase }
    }
}

impl<A: Scalar> Basis<A> {
    /// Construct from flat component arrays and a width, re-checking
    /// the layout invariant.
    pub fn new(abs: Vec<A>, phase: Vec<u8>, width: usize) -> (r: Basis<A>)
        requires
            1 <= width,
            abs@.len() == phase@.len(),
            abs@.len() as int % (width as int) == 0,
        ensures
            r@ == (BasisModel { width, abs: abs@, phase: phase@ }),
            r@.wf(),
    {
        Cereal { abs, phase, width }.validate()
    }

    /// The raw, invariant-free counterpart of this basis, for
    /// serialization.
    pub fn cereal(self) -> (r: Cereal<A>)
        ensures
            r.width == self@.width,
            r.abs@ == self@.abs,
            r.phase@ == self@.phase,
    {
        let Basis { width, abs, phase } = self;
        Cereal { width, abs, phase }
    }

    /// Number of dimensions in a ket.
    pub fn width(&self) -> (r: usize)
        ensures
            r == self@.width,
    {
        self.width
    }

    /// Number of kets.
    pub fn rank(&self) -> (r: usize)
        requires
            self@.wf(),
        ensures
            r == self@.rank(),
    {
        self.abs.len() / self.width
    }

    /// Append one ket's worth of data; the arrays must match the width.
    pub fn insert(&mut self, arrays: (&[A], &[u8]))
        requires
            old(self)@.wf(),
            arrays.0@.len() == old(self)@.width,
            arrays.1@.len() == old(self)@.width,
        ensures
            final(self)@.width == old(self)@.width,
            final(self)@.abs == old(self)@.abs + arrays.0@,
            final(self)@.phase == old(self)@.phase + arrays.1@,
            final(self)@.wf(),
            final(self)@.rank() == old(self)@.rank() + 1,
    {
        let (norm, phase) = arrays;
        let ghost orig_abs = self@.abs;
        let ghost orig_phase = self@.phase;
        let n = norm.len();
        let mut k: usize = 0;
        while k < n
            invariant
                0 <= k <= n,
                n == norm@.len(),
                self@.width == old(self)@.width,
                self@.abs == orig_abs + norm@.subrange(0, k as int),
                self@.phase == orig_phase,
            decreases n - k,
        {
            self.abs.push(*slice_index_get(norm, k));
            proof {
                assert(orig_abs + norm@.subrange(0, k as int) + seq![norm@[k as int]] =~= orig_abs
                    + norm@.subrange(0, k as int + 1));
            }
            k = k + 1;
        }
        let mut k2: usize = 0;
        while k2 < n
            invariant
                0 <= k2 <= n,
                n == phase@.len(),
                n == norm@.len(),
                self@.width == old(self)@.width,
                self@.abs == orig_abs + norm@.subrange(0, n as int),
                self@.phase == orig_phase + phase@.subrange(0, k2 as int),
            decreases n - k2,
        {
            self.phase.push(*slice_index_get(phase, k2));
            proof {
                assert(orig_phase + phase@.subrange(0, k2 as int) + seq![phase@[k2 as int]]
                    =~= orig_phase + phase@.subrange(0, k2 as int + 1));
            }
            k2 = k2 + 1;
        }
        proof {
            assert(norm@.subrange(0, norm@.len() as int) =~= norm@);
            assert(phase@.subrange(0, phase@.len() as int) =~= phase@);
            let w = old(self)@.width as int;
            vstd::arithmetic::div_mod::lemma_mod_multiples_vanish(1, orig_abs.len() as int, w);
            vstd::arithmetic::div_mod::lemma_fundamental_div_mod(orig_abs.len() as int, w);
            vstd::arithmetic::div_mod::lemma_div_multiples_vanish(
                orig_abs.len() as int / w + 1,
                w,
            );
            vstd::arithmetic::mul::lemma_mul_is_distributive_add(
                w,
                orig_abs.len() as int / w,
                1,
            );
        }
    }

    /// A borrowed view of the `i`-th ket: a slice into the backing
    /// storage, no copy.
    pub fn ket(&self, i: usize) -> (r: KetRef<A>)
        requires
            self@.wf(),
            (i as int) < self@.rank(),
        ensures
            r@ == self@.ket(i as int),
            r@.wf(),
            r@.len() == self@.width,
    {
        let total = self.abs.len();
        proof {
            lemma_compact_ket_slice_bounds(self@.abs.len() as int, self@.width as int, i as int);
            assert(total as int <= usize::MAX as int);
        }
        let w = self.width;
        let lo = w * i;
        let hi = lo + w;
        KetRef {
            abs: slice_subrange(self.abs.as_slice(), lo, hi),
            phase: slice_subrange(self.phase.as_slice(), lo, hi),
        }
    }
}

/// The slice boundaries of compact ket `i` lie within the flat storage.
proof fn lemma_compact_ket_slice_bounds(len: int, w: int, i: int)
    requires
        1 <= w,
        len % w == 0,
        0 <= i < len / w,
    ensures
        w * (i + 1) <= len,
        w * i + w == w * (i + 1),
{
    vstd::arithmetic::div_mod::lemma_fundamental_div_mod(len, w);
    let q = len / w;
    vstd::arithmetic::mul::lemma_mul_inequality(i + 1, q, w);
    assert((i + 1) * w == w * (i + 1)) by (nonlinear_arith);
    assert(q * w == w * q) by (nonlinear_arith);
    assert(w * i + w == w * (i + 1)) by (nonlinear_arith);
}

/// The overlap of a compact ket with itself is exactly the squared norm
/// of the self inner product, through any table.
pub proof fn lemma_overlap_self_is_dot_sqnorm<A: Scalar>(a: KetModel<A>, t: TableModel<A>)
    ensures
        overlap_spec(a, a, t) == rect_sqnorm(dot_spec(a, a, t)),
{
}

/// A table is trigonometrically symmetric when negating a phase code
/// keeps its cosine and negates its sine, as any table built from the
/// real sine and cosine of the codes' angles is.
pub open spec fn table_symmetric<A: Scalar>(t: TableModel<A>) -> bool {
    &&& forall|p: u8| #[trigger] t.cos[0u8.wrapping_sub(p) as int] == t.cos[p as int]
    &&& forall|p: u8| #[trigger] t.sin[0u8.wrapping_sub(p) as int] == t.sin[p as int].m_neg()
}

/// Each compact inner-product term conjugates into the mirrored term,
/// through a trigonometrically symmetric table.
proof fn lemma_compact_term_conj<A: Scalar>(x: Polar<A>, y: Polar<A>, t: TableModel<A>)
    requires
        table_symmetric(t),
    ensures
        polar_to_rect(polar_mul(polar_conj(x), y), t) == rect_conj(
            polar_to_rect(polar_mul(polar_conj(y), x), t),
        ),
{
    let p = polar_mul(polar_conj(x), y);
    let q = polar_mul(polar_conj(y), x);
    assert(q.phase == 0u8.wrapping_sub(p.phase));
    A::law_mul_comm(x.abs, y.abs);
    assert(t.cos[q.phase as int] == t.cos[p.phase as int]);
    assert(t.sin[q.phase as int] == t.sin[p.phase as int].m_neg());
    let s = t.sin[p.phase as int];
    A::law_mul_comm(p.abs, s.m_neg());
    A::law_mul_neg_left(s, p.abs);
    A::law_mul_comm(s, p.abs);
    A::law_neg_neg(p.abs.m_mul(s));
}

/// Hermitian symmetry of the truncated compact inner product, by
/// induction over the fold.
proof fn lemma_compact_dot_partial_hermitian<A: Scalar>(
    a: KetModel<A>,
    b: KetModel<A>,
    t: TableModel<A>,
    n: int,
)
    requires
        table_symmetric(t),
    ensures
        dot_partial(a, b, t, n) == rect_conj(dot_partial(b, a, t, n)),
    decreases n,
{
    if n <= 0 {
        A::law_neg_zero();
    } else {
        lemma_compact_dot_partial_hermitian(a, b, t, n - 1);
        lemma_compact_term_conj(a.at(n - 1), b.at(n - 1), t);
        lemma_rect_conj_add(
            dot_partial(b, a, t, n - 1),
            polar_to_rect(polar_mul(polar_conj(b.at(n - 1)), a.at(n - 1)), t),
        );
    }
}

/// Hermitian symmetry of the compact inner product: for kets of equal
/// length, through a trigonometrically symmetric table, `dot(a, b)` is
/// the complex conjugate of `dot(b, a)`.
pub proof fn lemma_compact_dot_hermitian<A: Scalar>(a: KetModel<A>, b: KetModel<A>, t: TableModel<A>)
    requires
        a.len() == b.len(),
        table_symmetric(t),
    ensures
        dot_spec(a, b, t) == rect_conj(dot_spec(b, a, t)),
{
    lemma_compact_dot_partial_hermitian(a, b, t, a.len() as int);
}

} // verus!
