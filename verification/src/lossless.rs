//! The full-precision rectangular representation: kets and bases whose
//! amplitudes are [`Rect`] values over an abstract scalar.
//!
//! A ket stores its amplitudes as two parallel arrays, the real parts
//! and the imaginary parts.  A basis stores its kets contiguously in one
//! flat array: for each ket in order, that ket's real parts immediately
//! followed by its imaginary parts.
//!
//! Every operation's contract is exact over the scalar models: the inner
//! product, for instance, is pinned to a left fold in index order of the
//! per-index terms `conj(a_i) * b_i`, which is what the summation-order
//! requirement on the inner product means.

use vstd::prelude::*;
use vstd::slice::{slice_index_get, slice_subrange, slice_to_vec};

use crate::scalar::{Scalar, Demote};
use crate::complex::{
    Rect, rect_zero, rect_add, rect_mul, rect_conj, rect_sqnorm, rect_abs,
    PhaseTable, TableModel, nearest_phase_spec, lemma_rect_conj_add,
};
use crate::compact;

verus! {

/// The abstract contents of a ket: parallel sequences of real and
/// imaginary parts.
#[verifier::ext_equal]
pub ghost struct KetModel<T> {
    pub real: Seq<T>,
    pub imag: Seq<T>,
}

impl<T> KetModel<T> {
    /// The two component sequences pair up.
    pub open spec fn wf(self) -> bool {
        self.real.len() == self.imag.len()
    }

    /// Number of amplitudes.
    pub open spec fn len(self) -> nat {
        self.real.len()
    }

    /// The `i`-th amplitude.
    pub open spec fn at(self, i: int) -> Rect<T> {
        Rect { real: self.real[i], imag: self.imag[i] }
    }
}

/// The inner product `<a|b>` truncated to the first `n` amplitudes: a
/// left fold, in index order, of the terms `conj(a_i) * b_i` starting
/// from zero.
pub open spec fn dot_partial<T: Scalar>(a: KetModel<T>, b: KetModel<T>, n: int) -> Rect<T>
    decreases n,
{
    if n <= 0 {
        rect_zero::<T>()
    } else {
        rect_add(dot_partial(a, b, n - 1), rect_mul(rect_conj(a.at(n - 1)), b.at(n - 1)))
    }
}

/// The inner product `<a|b>`, with `a` as the bra.
pub open spec fn dot_spec<T: Scalar>(a: KetModel<T>, b: KetModel<T>) -> Rect<T> {
    dot_partial(a, b, a.len() as int)
}

/// The sum `init + s_0^2 + s_1^2 + ...` over the first `n` entries, in
/// index order.
pub open spec fn sq_sum_partial<T: Scalar>(s: Seq<T>, init: T, n: int) -> T
    decreases n,
{
    if n <= 0 {
        init
    } else {
        sq_sum_partial(s, init, n - 1).m_add(s[n - 1].m_mul(s[n - 1]))
    }
}

/// The squared norm `<k|k>`, computed directly from the components: all
/// squared real parts in index order, then all squared imaginary parts.
pub open spec fn sqnorm_spec<T: Scalar>(k: KetModel<T>) -> T {
    sq_sum_partial(k.imag, sq_sum_partial(k.real, T::m_zero(), k.real.len() as int), k.imag.len() as int)
}

/// The norm: the square root of the squared norm.
pub open spec fn norm_spec<T: Scalar>(k: KetModel<T>) -> T {
    sqnorm_spec(k).m_sqrt()
}

/// The overlap `<a|b><b|a>`: the squared norm of the inner product.
pub open spec fn overlap_spec<T: Scalar>(a: KetModel<T>, b: KetModel<T>) -> T {
    rect_sqnorm(dot_spec(a, b))
}

/// Every amplitude multiplied on the right by the factor `c`.
pub open spec fn scale_spec<T: Scalar>(k: KetModel<T>, c: Rect<T>) -> KetModel<T> {
    KetModel {
        real: Seq::new(k.real.len(), |i: int| rect_mul(k.at(i), c).real),
        imag: Seq::new(k.real.len(), |i: int| rect_mul(k.at(i), c).imag),
    }
}

/// Every component divided by the real factor.
pub open spec fn div_real_spec<T: Scalar>(k: KetModel<T>, factor: T) -> KetModel<T> {
    KetModel {
        real: Seq::new(k.real.len(), |i: int| k.real[i].m_div(factor)),
        imag: Seq::new(k.imag.len(), |i: int| k.imag[i].m_div(factor)),
    }
}

/// The ket scaled by the reciprocal of its own norm.
pub open spec fn normalized_spec<T: Scalar>(k: KetModel<T>) -> KetModel<T> {
    div_real_spec(k, norm_spec(k))
}

/// The projection `|onto><onto|k>` of `k` onto the (arbitrary-norm)
/// vector `onto`.
pub open spec fn proj_spec<T: Scalar>(k: KetModel<T>, onto: KetModel<T>) -> KetModel<T> {
    scale_spec(onto, dot_spec(onto, k))
}

/// Componentwise difference of two kets.
pub open spec fn ket_sub_spec<T: Scalar>(a: KetModel<T>, b: KetModel<T>) -> KetModel<T> {
    KetModel {
        real: Seq::new(a.real.len(), |i: int| a.real[i].m_sub(b.real[i])),
        imag: Seq::new(a.imag.len(), |i: int| a.imag[i].m_sub(b.imag[i])),
    }
}

/// An owned ket.
#[derive(Debug, Clone)]
pub struct Ket<T> {
    real: Vec<T>,
    imag: Vec<T>,
}

/// A borrowed view of a ket; valid as long as the storage it was derived
/// from is alive and unmodified.
#[derive(Debug, Clone, Copy)]
pub struct KetRef<'a, T> {
    real: &'a [T],
    imag: &'a [T],
}

impl<T> View for Ket<T> {
    type V = KetModel<T>;

    closed spec fn view(&self) -> KetModel<T> {
        KetModel { real: self.real@, imag: self.imag@ }
    }
}

impl<T> View for KetRef<'_, T> {
    type V = KetModel<T>;

    closed spec fn view(&self) -> KetModel<T> {
        KetModel { real: self.real@, imag: self.imag@ }
    }
}

impl<'a, T: Scalar> KetRef<'a, T> {
    /// Construct from two equal-length component slices; the equal
    /// length is the caller's obligation, not a runtime check.
    pub fn new(re: &'a [T], im: &'a [T]) -> (r: KetRef<'a, T>)
        requires
            re@.len() == im@.len(),
        ensures
            r@ == (KetModel { real: re@, imag: im@ }),
            r@.wf(),
    {
        KetRef { real: re, imag: im }
    }

    /// The `i`-th amplitude, reconstructed as a value from the two
    /// backing arrays.
    pub fn at(&self, i: usize) -> (r: Rect<T>)
        requires
            self@.wf(),
            i < self@.len(),
        ensures
            r == self@.at(i as int),
    {
        Rect { real: *slice_index_get(self.real, i), imag: *slice_index_get(self.imag, i) }
    }

    /// Number of amplitudes.
    pub fn len(&self) -> (r: usize)
        ensures
            r == self@.len(),
    {
        self.real.len()
    }

    /// The real components.
    pub fn reals(&self) -> (r: &'a [T])
        ensures
            r@ == self@.real,
    {
        self.real
    }

    /// The imaginary components.
    pub fn imags(&self) -> (r: &'a [T])
        ensures
            r@ == self@.imag,
    {
        self.imag
    }

    /// Computes `<self|self>` directly from the component magnitudes:
    /// the squared real parts are summed in index order, then the
    /// squared imaginary parts.
    pub fn sqnorm(self) -> (r: T)
        requires
            self@.wf(),
        ensures
            r == sqnorm_spec(self@),
    {
        let mut acc: T = T::zero();
        let n = self.real.len();
        let mut i: usize = 0;
        while i < n
            invariant
                0 <= i <= n,
                n == self.real@.len(),
                acc == sq_sum_partial(self.real@, T::m_zero(), i as int),
            decreases n - i,
        {
            let x: T = *slice_index_get(self.real, i);
            acc = acc.add(x.mul(x));
            i = i + 1;
        }
        let ghost after_real = acc;
        let m = self.imag.len();
        let mut j: usize = 0;
        while j < m
            invariant
                0 <= j <= m,
                m == self.imag@.len(),
                acc == sq_sum_partial(self.imag@, after_real, j as int),
                after_real == sq_sum_partial(self.real@, T::m_zero(), self.real@.len() as int),
            decreases m - j,
        {
            let x: T = *slice_index_get(self.imag, j);
            acc = acc.add(x.mul(x));
            j = j + 1;
        }
        acc
    }

    /// The norm `sqrt(<self|self>)`.
    pub fn norm(&self) -> (r: T)
        requires
            self@.wf(),
        ensures
            r == norm_spec(self@),
    {
        self.sqnorm().sqrt()
    }

    /// Computes `<self|other>` (`self` becomes the bra): the left fold,
    /// in index order, of the terms `conj(self_i) * other_i`.
    pub fn dot(self, other: KetRef<T>) -> (r: Rect<T>)
        requires
            self@.wf(),
            other@.wf(),
            self@.len() == other@.len(),
        ensures
            r == dot_spec(self@, other@),
    {
        let n = self.real.len();
        let mut acc: Rect<T> = Rect::zero();
        let mut i: usize = 0;
        while i < n
            invariant
                0 <= i <= n,
                n == self@.len(),
                self@.wf(),
                other@.wf(),
                self@.len() == other@.len(),
                acc == dot_partial(self@, other@, i as int),
            decreases n - i,
        {
            acc = acc.add(self.at(i).conj().mul(other.at(i)));
            i = i + 1;
        }
        acc
    }

    /// Computes the overlap `<self|other><other|self>`.
    pub fn overlap(&self, other: KetRef<T>) -> (r: T)
        requires
            self@.wf(),
            other@.wf(),
            self@.len() == other@.len(),
        ensures
            r == overlap_spec(self@, other@),
    {
        self.dot(other).sqnorm()
    }

    /// An owned copy of this ket.
    pub fn to_owned(&self) -> (r: Ket<T>)
        ensures
            r@ == self@,
    {
        Ket { real: slice_to_vec(self.real), imag: slice_to_vec(self.imag) }
    }

    /// Every amplitude multiplied by the complex factor `c`.
    pub fn scale(&self, c: Rect<T>) -> (r: Ket<T>)
        requires
            self@.wf(),
        ensures
            r@ == scale_spec(self@, c),
            r@.wf(),
    {
        let n = self.real.len();
        let mut out_re: Vec<T> = Vec::new();
        let mut out_im: Vec<T> = Vec::new();
        let mut i: usize = 0;
        while i < n
            invariant
                0 <= i <= n,
                n == self@.len(),
                self@.wf(),
                out_re@.len() == i,
                out_im@.len() == i,
                forall|j: int| 0 <= j < i ==> #[trigger] out_re@[j] == rect_mul(self@.at(j), c).real,
                forall|j: int| 0 <= j < i ==> #[trigger] out_im@[j] == rect_mul(self@.at(j), c).imag,
            decreases n - i,
        {
            let prod = self.at(i).mul(c);
            out_re.push(prod.real);
            out_im.push(prod.imag);
            i = i + 1;
        }
        let r = Ket { real: out_re, imag: out_im };
        proof {
            assert(r@.real =~= scale_spec(self@, c).real);
            assert(r@.imag =~= scale_spec(self@, c).imag);
            assert(r@ =~= scale_spec(self@, c));
        }
        r
    }

    /// A freshly-owned normalized copy of this ket.  Normalizing a
    /// zero-norm ket is the caller's responsibility to avoid: the result
    /// is whatever dividing by the instance's zero norm gives.
    pub fn to_normalized(&self) -> (r: Ket<T>)
        requires
            self@.wf(),
        ensures
            r@ == normalized_spec(self@),
            r@.wf(),
    {
        self.to_owned().into_normalized()
    }

    /// Computes `|other><other|self>`: the projection of `self` onto
    /// the (arbitrary-norm) vector `other`.
    pub fn projected_onto(self, other: KetRef<T>) -> (r: Ket<T>)
        requires
            self@.wf(),
            other@.wf(),
            self@.len() == other@.len(),
        ensures
            r@ == proj_spec(self@, other@),
            r@.wf(),
    {
        other.scale(other.dot(self))
    }
}

impl<T: Scalar> Ket<T> {
    /// Construct from two equal-length component arrays; the equal
    /// length is the caller's obligation.
    pub fn new(re: Vec<T>, im: Vec<T>) -> (r: Ket<T>)
        requires
            re@.len() == im@.len(),
        ensures
            r@ == (KetModel { real: re@, imag: im@ }),
            r@.wf(),
    {
        Ket { real: re, imag: im }
    }

    /// A borrowed view of this ket.
    pub fn as_ref(&self) -> (r: KetRef<T>)
        ensures
            r@ == self@,
    {
        KetRef { real: self.real.as_slice(), imag: self.imag.as_slice() }
    }

    /// Number of amplitudes.
    pub fn len(&self) -> (r: usize)
        ensures
            r == self@.len(),
    {
        self.real.len()
    }

    /// The real components.
    pub fn reals(&self) -> (r: &[T])
        ensures
            r@ == self@.real,
    {
        self.real.as_slice()
    }

    /// The imaginary components.
    pub fn imags(&self) -> (r: &[T])
        ensures
            r@ == self@.imag,
    {
        self.imag.as_slice()
    }

    /// Computes `<self|self>`.
    pub fn sqnorm(&self) -> (r: T)
        requires
            self@.wf(),
        ensures
            r == sqnorm_spec(self@),
    {
        self.as_ref().sqnorm()
    }

    /// The norm `sqrt(<self|self>)`.
    pub fn norm(&self) -> (r: T)
        requires
            self@.wf(),
        ensures
            r == norm_spec(self@),
    {
        self.as_ref().norm()
    }

    /// Computes `<self|other>` (`self` becomes the bra).
    pub fn dot(&self, other: &Ket<T>) -> (r: Rect<T>)
        requires
            self@.wf(),
            other@.wf(),
            self@.len() == other@.len(),
        ensures
            r == dot_spec(self@, other@),
    {
        self.as_ref().dot(other.as_ref())
    }

    /// Computes the overlap `<self|other><other|self>`.
    pub fn overlap(&self, other: &Ket<T>) -> (r: T)
        requires
            self@.wf(),
            other@.wf(),
            self@.len() == other@.len(),
        ensures
            r == overlap_spec(self@, other@),
    {
        self.as_ref().overlap(other.as_ref())
    }

    /// The `i`-th amplitude as a value.
    pub fn at(&self, i: usize) -> (r: Rect<T>)
        requires
            self@.wf(),
            i < self@.len(),
        ensures
            r == self@.at(i as int),
    {
        self.as_ref().at(i)
    }

    /// A normalized copy of this ket.
    pub fn to_normalized(&self) -> (r: Ket<T>)
        requires
            self@.wf(),
        ensures
            r@ == normalized_spec(self@),
            r@.wf(),
    {
        self.as_ref().to_normalized()
    }

    /// This ket, normalized in place.
    pub fn into_normalized(self) -> (r: Ket<T>)
        requires
            self@.wf(),
        ensures
            r@ == normalized_spec(self@),
            r@.wf(),
    {
        let n = self.norm();
        self.div_real(n)
    }

    /// Every component divided by the real factor.
    fn div_real(self, factor: T) -> (r: Ket<T>)
        requires
            self@.wf(),
        ensures
            r@ == div_real_spec(self@, factor),
            r@.wf(),
    {
        let n = self.real.len();
        let mut out_re: Vec<T> = Vec::new();
        let mut out_im: Vec<T> = Vec::new();
        let mut i: usize = 0;
        while i < n
            invariant
                0 <= i <= n,
                n == self@.len(),
                self@.wf(),
                out_re@.len() == i,
                out_im@.len() == i,
                forall|j: int| 0 <= j < i ==> #[trigger] out_re@[j] == self@.real[j].m_div(factor),
                forall|j: int| 0 <= j < i ==> #[trigger] out_im@[j] == self@.imag[j].m_div(factor),
            decreases n - i,
        {
            out_re.push((*slice_index_get(self.real.as_slice(), i)).div(factor));
            out_im.push((*slice_index_get(self.imag.as_slice(), i)).div(factor));
            i = i + 1;
        }
        let r = Ket { real: out_re, imag: out_im };
        proof {
            assert(r@.real =~= div_real_spec(self@, factor).real);
            assert(r@.imag =~= div_real_spec(self@, factor).imag);
            assert(r@ =~= div_real_spec(self@, factor));
        }
        r
    }

    /// Computes `|other><other|self>`.
    pub fn projected_onto(&self, other: &Ket<T>) -> (r: Ket<T>)
        requires
            self@.wf(),
            other@.wf(),
            self@.len() == other@.len(),
        ensures
            r@ == proj_spec(self@, other@),
            r@.wf(),
    {
        self.as_ref().projected_onto(other.as_ref())
    }
}

/// The abstract contents of a basis: the common ket width and the flat
/// storage, one ket after another, reals before imaginaries within each
/// ket.
#[verifier::ext_equal]
pub ghost struct BasisModel<T> {
    pub width: usize,
    pub data: Seq<T>,
}

impl<T> BasisModel<T> {
    /// The layout invariant: a positive width whose doubled value still
    /// fits the machine, and a total length holding a whole number of
    /// kets.
    pub open spec fn wf(self) -> bool {
        &&& 1 <= self.width
        &&& 2 * (self.width as int) <= usize::MAX as int
        &&& self.data.len() as int % (2 * self.width as int) == 0
    }

    /// Number of kets.
    pub open spec fn rank(self) -> int {
        self.data.len() as int / (2 * self.width as int)
    }

    /// The contents of the `i`-th ket.
    pub open spec fn ket(self, i: int) -> KetModel<T> {
        let w = self.width as int;
        KetModel {
            real: self.data.subrange(w * (2 * i), w * (2 * i + 1)),
            imag: self.data.subrange(w * (2 * i + 1), w * (2 * i + 2)),
        }
    }
}

/// The basis extended by one ket's worth of data.
pub open spec fn basis_push<T>(b: BasisModel<T>, k: KetModel<T>) -> BasisModel<T> {
    BasisModel { width: b.width, data: b.data + k.real + k.imag }
}

/// Within one incoming ket, the state of the Gram-Schmidt correction
/// after subtracting its projections onto the first `j` output kets, in
/// output order.
pub open spec fn correct_partial<T: Scalar>(k: KetModel<T>, out: BasisModel<T>, j: int) -> KetModel<T>
    decreases j,
{
    if j <= 0 {
        k
    } else {
        let prev = correct_partial(k, out, j - 1);
        ket_sub_spec(prev, proj_spec(prev, out.ket(j - 1)))
    }
}

/// The output basis of Modified Gram-Schmidt after consuming the first
/// `k` input kets: each incoming ket is corrected against every output
/// ket so far, normalized, and appended.
pub open spec fn mgs_partial<T: Scalar>(input: BasisModel<T>, k: int) -> BasisModel<T>
    decreases k,
{
    if k <= 0 {
        BasisModel { width: input.width, data: Seq::empty() }
    } else {
        let prev = mgs_partial(input, k - 1);
        let corrected = correct_partial(input.ket(k - 1), prev, prev.rank());
        basis_push(prev, normalized_spec(corrected))
    }
}

/// The whole Modified Gram-Schmidt transform.
pub open spec fn mgs_spec<T: Scalar>(input: BasisModel<T>) -> BasisModel<T> {
    mgs_partial(input, input.rank())
}

/// The flat index `m` of the compact output corresponds to amplitude
/// `m % width` of ket `m / width`.
pub open spec fn amp_at_flat<T: Scalar>(b: BasisModel<T>, m: int) -> Rect<T> {
    b.ket(m / (b.width as int)).at(m % (b.width as int))
}

/// The compressed magnitude at flat index `m`: the amplitude's
/// magnitude, demoted to the narrow scalar.
pub open spec fn compress_abs_at<A: Scalar, T: Demote<A>>(b: BasisModel<T>, m: int) -> A {
    rect_abs(amp_at_flat(b, m)).m_demote()
}

/// The compressed phase at flat index `m`: the amplitude's angle,
/// quantized through the table.
pub open spec fn compress_phase_at<A: Scalar, T: Demote<A>>(
    b: BasisModel<T>,
    t: TableModel<A>,
    m: int,
) -> u8 {
    nearest_phase_spec(t, amp_at_flat(b, m).imag.m_atan2(amp_at_flat(b, m).real))
}

/// The lossy compression of a whole basis: same width, same ket-major
/// order, each amplitude reduced to a demoted magnitude and a quantized
/// phase.
pub open spec fn compress_spec<A: Scalar, T: Demote<A>>(
    b: BasisModel<T>,
    t: TableModel<A>,
) -> compact::BasisModel<A> {
    compact::BasisModel {
        width: b.width,
        abs: Seq::new((b.rank() * b.width as int) as nat, |m: int| compress_abs_at(b, m)),
        phase: Seq::new((b.rank() * b.width as int) as nat, |m: int| compress_phase_at(b, t, m)),
    }
}

/// A set of kets of common width, stored contiguously.
#[derive(Debug, Clone, PartialEq)]
pub struct Basis<T> {
    width: usize,
    data: Vec<T>,
}

impl<T> View for Basis<T> {
    type V = BasisModel<T>;

    closed spec fn view(&self) -> BasisModel<T> {
        BasisModel { width: self.width, data: self.data@ }
    }
}

/// The raw counterpart of [`Basis`], carrying no invariant: the shape
/// that crosses a serialization boundary.  Converting it into a checked
/// [`Basis`] goes through [`Cereal::validate`], the one place the layout
/// invariant is re-established.
#[derive(Debug, Clone, PartialEq)]
pub struct Cereal<T> {
    pub width: usize,
    pub data: Vec<T>,
}

impl<T: Scalar> Cereal<T> {
    /// The layout invariant this raw value must satisfy to become a
    /// checked basis.
    pub open spec fn valid(self) -> bool {
        &&& 1 <= self.width
        &&& 2 * (self.width as int) <= usize::MAX as int
        &&& self.data@.len() as int % (2 * self.width as int) == 0
    }

    /// Whether the raw value satisfies the layout invariant; the test a
    /// decoder runs before converting.
    pub fn is_valid(&self) -> (r: bool)
        ensures
            r == self.valid(),
    {
        if self.width < 1 {
            return false;
        }
        if self.width > usize::MAX / 2 {
            return false;
        }
        proof {
            assert(2 * (self.width as int) <= usize::MAX as int);
        }
        self.data.len() % (2 * self.width) == 0
    }

    /// Convert into a checked basis; the invariant is the caller's to
    /// establish (a decoder tests it with [`Cereal::is_valid`] and
    /// fails its own way on a malformed value).
    pub fn validate(self) -> (r: Basis<T>)
        requires
            self.valid(),
        ensures
            r@ == (BasisModel { width: self.width, data: self.data@ }),
            r@.wf(),
    {
        let Cereal { width, data } = self;
        Basis { width, data }
    }
}

impl<T: Scalar> Basis<T> {
    /// Construct from flat storage and a width, re-checking the layout
    /// invariant.
    pub fn new(data: Vec<T>, width: usize) -> (r: Basis<T>)
        requires
            1 <= width,
            2 * (width as int) <= usize::MAX as int,
            data@.len() as int % (2 * width as int) == 0,
        ensures
            r@ == (BasisModel { width, data: data@ }),
            r@.wf(),
    {
        Cereal { data, width }.validate()
    }

    /// The raw, invariant-free counterpart of this basis, for
    /// serialization.
    pub fn cereal(self) -> (r: Cereal<T>)
        ensures
            r.width == self@.width,
            r.data@ == self@.data,
    {
        let Basis { width, data } = self;
        Cereal { width, data }
    }

    /// Number of dimensions in a ket.
    pub fn width(&self) -> (r: usize)
        ensures
            r == self@.width,
    {
        self.width
    }

    /// Number of kets.
    pub fn rank(&self) -> (r: usize)
        requires
            self@.wf(),
        ensures
            r == self@.rank(),
    {
        self.data.len() / (2 * self.width)
    }

    /// Append one ket's worth of data; the arrays must match the width.
    pub fn insert(&mut self, arrays: (&[T], &[T]))
        requires
            old(self)@.wf(),
            arrays.0@.len() == old(self)@.width,
            arrays.1@.len() == old(self)@.width,
        ensures
            final(self)@.width == old(self)@.width,
            final(self)@.data == old(self)@.data + arrays.0@ + arrays.1@,
            final(self)@.wf(),
            final(self)@.rank() == old(self)@.rank() + 1,
    {
        let (re, im) = arrays;
        let ghost orig = self@.data;
        let mut k: usize = 0;
        let n = re.len();
        while k < n
            invariant
                0 <= k <= n,
                n == re@.len(),
                self@.width == old(self)@.width,
                self@.data == orig + re@.subrange(0, k as int),
            decreases n - k,
        {
            self.data.push(*slice_index_get(re, k));
            proof {
                assert(orig + re@.subrange(0, k as int) + seq![re@[k as int]] =~= orig
                    + re@.subrange(0, k as int + 1));
            }
            k = k + 1;
        }
        proof {
            assert(re@.subrange(0, re@.len() as int) =~= re@);
        }
        let ghost mid = self@.data;
        let mut k2: usize = 0;
        let m = im.len();
        while k2 < m
            invariant
                0 <= k2 <= m,
                m == im@.len(),
                self@.width == old(self)@.width,
                self@.data == mid + im@.subrange(0, k2 as int),
                mid == orig + re@,
            decreases m - k2,
        {
            self.data.push(*slice_index_get(im, k2));
            proof {
                assert(mid + im@.subrange(0, k2 as int) + seq![im@[k2 as int]] =~= mid
                    + im@.subrange(0, k2 as int + 1));
            }
            k2 = k2 + 1;
        }
        proof {
            assert(im@.subrange(0, im@.len() as int) =~= im@);
            let w2 = 2 * (old(self)@.width as int);
            vstd::arithmetic::div_mod::lemma_mod_multiples_vanish(1, orig.len() as int, w2);
            vstd::arithmetic::div_mod::lemma_fundamental_div_mod(orig.len() as int, w2);
            vstd::arithmetic::div_mod::lemma_div_multiples_vanish(
                orig.len() as int / w2 + 1,
                w2,
            );
            vstd::arithmetic::mul::lemma_mul_is_distributive_add(
                w2,
                orig.len() as int / w2,
                1,
            );
            assert(self@.data.len() as int == orig.len() as int + w2);
            assert(self@.rank() == old(self)@.rank() + 1);
        }
    }

    /// A borrowed view of the `i`-th ket: a slice into the backing
    /// storage, no copy.
    pub fn ket(&self, i: usize) -> (r: KetRef<T>)
        requires
            self@.wf(),
            (i as int) < self@.rank(),
        ensures
            r@ == self@.ket(i as int),
            r@.wf(),
            r@.len() == self@.width,
    {
        let total = self.data.len();
        proof {
            lemma_ket_slice_bounds(self@.data.len() as int, self@.width as int, i as int);
            assert(total as int <= usize::MAX as int);
        }
        let w = self.width;
        let ti = 2 * i;
        let lo = w * ti;
        let mid = lo + w;
        let hi = mid + w;
        KetRef {
            real: slice_subrange(self.data.as_slice(), lo, mid),
            imag: slice_subrange(self.data.as_slice(), mid, hi),
        }
    }

    /// Compress into the compact representation: for every amplitude in
    /// every ket, in ket-major order, the magnitude is demoted to the
    /// narrow scalar and the angle `atan2(imag, real)` is quantized
    /// through the table.  A pure, one-way, lossy transform.
    pub fn lossy_compress<A: Scalar>(&self, table: &PhaseTable<A>) -> (r: compact::Basis<A>) where
        T: Demote<A>,
        requires
            self@.wf(),
            table.wf(),
        ensures
            r@ == compress_spec(self@, table@),
            r@.wf(),
            r@.width == self@.width,
            r@.rank() == self@.rank(),
    {
        let rank = self.rank();
        let w = self.width;
        let mut abs: Vec<A> = Vec::new();
        let mut phase: Vec<u8> = Vec::new();
        let mut i: usize = 0;
        while i < rank
            invariant
                self@.wf(),
                self@.width == w,
                rank == self@.rank(),
                table.wf(),
                0 <= i <= rank,
                abs@.len() as int == (i as int) * (w as int),
                phase@.len() == abs@.len(),
                forall|m: int|
                    0 <= m < abs@.len() ==> #[trigger] abs@[m] == compress_abs_at(self@, m),
                forall|m: int|
                    0 <= m < phase@.len() ==> #[trigger] phase@[m] == compress_phase_at(
                        self@,
                        table@,
                        m,
                    ),
            decreases rank - i,
        {
            let k = self.ket(i);
            let mut j: usize = 0;
            while j < w
                invariant
                    self@.wf(),
                    self@.width == w,
                    rank == self@.rank(),
                    table.wf(),
                    0 <= i < rank,
                    0 <= j <= w,
                    k@ == self@.ket(i as int),
                    k@.wf(),
                    k@.len() == w,
                    abs@.len() as int == (i as int) * (w as int) + (j as int),
                    phase@.len() == abs@.len(),
                    forall|m: int|
                        0 <= m < abs@.len() ==> #[trigger] abs@[m] == compress_abs_at(self@, m),
                    forall|m: int|
                        0 <= m < phase@.len() ==> #[trigger] phase@[m] == compress_phase_at(
                            self@,
                            table@,
                            m,
                        ),
                decreases w - j,
            {
                proof {
                    vstd::arithmetic::div_mod::lemma_fundamental_div_mod_converse_div(
                        (i as int) * (w as int) + (j as int),
                        w as int,
                        i as int,
                        j as int,
                    );
                    vstd::arithmetic::div_mod::lemma_fundamental_div_mod_converse_mod(
                        (i as int) * (w as int) + (j as int),
                        w as int,
                        i as int,
                        j as int,
                    );
                }
                let c = k.at(j);
                phase.push(table.nearest_phase(c.imag.atan2(c.real)));
                abs.push(c.abs().demote());
                j = j + 1;
            }
            proof {
                vstd::arithmetic::mul::lemma_mul_is_distributive_add_other_way(
                    w as int,
                    i as int,
                    1,
                );
            }
            i = i + 1;
        }
        proof {
            vstd::arithmetic::div_mod::lemma_mod_multiples_basic(rank as int, w as int);
        }
        let r = compact::Cereal { width: w, abs, phase }.validate();
        proof {
            vstd::arithmetic::div_mod::lemma_div_by_multiple(rank as int, w as int);
            assert(r@.abs =~= compress_spec(self@, table@).abs);
            assert(r@.phase =~= compress_spec(self@, table@).phase);
            assert(r@ =~= compress_spec(self@, table@));
        }
        r
    }

    /// Orthonormalize with the Modified Gram-Schmidt method: each ket,
    /// in input order, is corrected against every already-produced
    /// output ket (in output order), normalized, and appended.
    pub fn orthonormalize(&self) -> (r: Basis<T>)
        requires
            self@.wf(),
        ensures
            r@ == mgs_spec(self@),
            r@.wf(),
            r@.width == self@.width,
            r@.rank() == self@.rank(),
    {
        let w = self.width;
        let empty: Vec<T> = Vec::new();
        proof {
            vstd::arithmetic::div_mod::lemma_small_mod(0nat, (2 * w as int) as nat);
            assert(empty@.len() as int % (2 * w as int) == 0);
        }
        let mut out = Basis::new(empty, w);
        let rank = self.rank();
        proof {
            assert(out@ =~= mgs_partial(self@, 0));
        }
        let mut i: usize = 0;
        while i < rank
            invariant
                self@.wf(),
                self@.width == w,
                rank == self@.rank(),
                0 <= i <= rank,
                out@.wf(),
                out@.width == w,
                out@.data.len() as int == (2 * w as int) * (i as int),
                out@ == mgs_partial(self@, i as int),
            decreases rank - i,
        {
            proof {
                vstd::arithmetic::div_mod::lemma_div_multiples_vanish(
                    i as int,
                    2 * w as int,
                );
                assert(out@.rank() == i as int);
            }
            let kref = self.ket(i);
            let mut cur: Ket<T> = kref.to_owned();
            let out_rank = out.rank();
            let mut j: usize = 0;
            while j < out_rank
                invariant
                    self@.wf(),
                    self@.width == w,
                    (i as int) < self@.rank(),
                    out@.wf(),
                    out@.width == w,
                    out_rank == out@.rank(),
                    0 <= j <= out_rank,
                    cur@.wf(),
                    cur@.len() == w,
                    cur@ == correct_partial(self@.ket(i as int), out@, j as int),
                decreases out_rank - j,
            {
                let bra = out.ket(j);
                let projected = cur.as_ref().projected_onto(bra);
                cur = ket_sub(cur, &projected);
                j = j + 1;
            }
            let normalized = cur.into_normalized();
            out.insert((normalized.reals(), normalized.imags()));
            proof {
                vstd::arithmetic::mul::lemma_mul_is_distributive_add(
                    2 * w as int,
                    i as int,
                    1,
                );
                assert(out@ =~= mgs_partial(self@, i as int + 1));
            }
            i = i + 1;
        }
        proof {
            vstd::arithmetic::div_mod::lemma_div_multiples_vanish(rank as int, 2 * w as int);
        }
        out
    }
}

/// Componentwise difference, the `ket -= projected` step of the
/// Gram-Schmidt correction.
fn ket_sub<T: Scalar>(a: Ket<T>, b: &Ket<T>) -> (r: Ket<T>)
    requires
        a@.wf(),
        b@.wf(),
        a@.len() == b@.len(),
    ensures
        r@ == ket_sub_spec(a@, b@),
        r@.wf(),
{
    let n = a.len();
    let mut out_re: Vec<T> = Vec::new();
    let mut out_im: Vec<T> = Vec::new();
    let aref = a.as_ref();
    let bref = b.as_ref();
    let mut i: usize = 0;
    while i < n
        invariant
            0 <= i <= n,
            n == a@.len(),
            a@.wf(),
            b@.wf(),
            a@.len() == b@.len(),
            aref@ == a@,
            bref@ == b@,
            out_re@.len() == i,
            out_im@.len() == i,
            forall|j: int| 0 <= j < i ==> #[trigger] out_re@[j] == a@.real[j].m_sub(b@.real[j]),
            forall|j: int| 0 <= j < i ==> #[trigger] out_im@[j] == a@.imag[j].m_sub(b@.imag[j]),
        decreases n - i,
    {
        let x = aref.at(i);
        let y = bref.at(i);
        out_re.push(x.real.sub(y.real));
        out_im.push(x.imag.sub(y.imag));
        i = i + 1;
    }
    let r = Ket { real: out_re, imag: out_im };
    proof {
        assert(r@.real =~= ket_sub_spec(a@, b@).real);
        assert(r@.imag =~= ket_sub_spec(a@, b@).imag);
        assert(r@ =~= ket_sub_spec(a@, b@));
    }
    r
}

/// The slice boundaries of ket `i` lie within the flat storage.
proof fn lemma_ket_slice_bounds(len: int, w: int, i: int)
    requires
        1 <= w,
        len % (2 * w) == 0,
        0 <= i < len / (2 * w),
    ensures
        (2 * i + 2) * w <= len,
        2 * i + 2 <= len,
        w * (2 * i) + w == w * (2 * i + 1),
        w * (2 * i + 1) + w == w * (2 * i + 2),
        (2 * i + 2) * w == w * (2 * i + 2),
{
    let m = 2 * w;
    vstd::arithmetic::div_mod::lemma_fundamental_div_mod(len, m);
    let q = len / m;
    vstd::arithmetic::mul::lemma_mul_inequality(i + 1, q, m);
    assert((i + 1) * m == (2 * i + 2) * w) by (nonlinear_arith)
        requires
            m == 2 * w,
    ;
    assert(q * m == m * q) by (nonlinear_arith);
    assert(w * (2 * i) + w == w * (2 * i + 1)) by (nonlinear_arith);
    assert(w * (2 * i + 1) + w == w * (2 * i + 2)) by (nonlinear_arith);
    assert((2 * i + 2) * w == w * (2 * i + 2)) by (nonlinear_arith);
    vstd::arithmetic::mul::lemma_mul_inequality(1, w, 2 * i + 2);
    assert(1 * (2 * i + 2) == 2 * i + 2) by (nonlinear_arith);
}

/// The overlap of a ket with itself is exactly the squared norm of the
/// self inner product: `overlap(a, a) == dot(a, a).sqnorm()`.
pub proof fn lemma_overlap_self_is_dot_sqnorm<T: Scalar>(a: KetModel<T>)
    ensures
        overlap_spec(a, a) == rect_sqnorm(dot_spec(a, a)),
{
}


/// Each inner-product term conjugates into the mirrored term:
/// `conj(x) * y == conj(conj(y) * x)`.
proof fn lemma_term_conj<T: Scalar>(x: Rect<T>, y: Rect<T>)
    ensures
        rect_mul(rect_conj(x), y) == rect_conj(rect_mul(rect_conj(y), x)),
{
    T::law_mul_neg_left(x.imag, y.imag);
    T::law_mul_neg_left(y.imag, x.imag);
    T::law_mul_neg_left(x.imag, y.real);
    T::law_mul_neg_left(y.imag, x.real);
    T::law_mul_comm(x.real, y.real);
    T::law_mul_comm(x.imag, y.imag);
    T::law_mul_comm(x.imag, y.real);
    T::law_mul_comm(x.real, y.imag);
    T::law_neg_add(y.real.m_mul(x.imag), y.imag.m_neg().m_mul(x.real));
    T::law_neg_neg(y.imag.m_mul(x.real));
    T::law_add_comm(x.real.m_mul(y.imag), x.imag.m_mul(y.real).m_neg());
}

/// Hermitian symmetry of the truncated inner product, by induction over
/// the fold.
proof fn lemma_dot_partial_hermitian<T: Scalar>(a: KetModel<T>, b: KetModel<T>, n: int)
    ensures
        dot_partial(a, b, n) == rect_conj(dot_partial(b, a, n)),
    decreases n,
{
    if n <= 0 {
        T::law_neg_zero();
    } else {
        lemma_dot_partial_hermitian(a, b, n - 1);
        lemma_term_conj(a.at(n - 1), b.at(n - 1));
        lemma_rect_conj_add(
            dot_partial(b, a, n - 1),
            rect_mul(rect_conj(b.at(n - 1)), a.at(n - 1)),
        );
    }
}

/// Hermitian symmetry of the inner product: for kets of equal length,
/// `dot(a, b)` is the complex conjugate of `dot(b, a)`.
pub proof fn lemma_dot_hermitian<T: Scalar>(a: KetModel<T>, b: KetModel<T>)
    requires
        a.len() == b.len(),
    ensures
        dot_spec(a, b) == rect_conj(dot_spec(b, a)),
{
    lemma_dot_partial_hermitian(a, b, a.len() as int);
}

/// Compression is a pure function of the basis and table contents:
/// equal inputs compress to equal compact bases.
pub proof fn lemma_compress_pure<A: Scalar, T: Demote<A>>(
    b1: BasisModel<T>,
    b2: BasisModel<T>,
    t1: TableModel<A>,
    t2: TableModel<A>,
)
    requires
        b1 == b2,
        t1 == t2,
    ensures
        compress_spec(b1, t1) == compress_spec(b2, t2),
{
}

} // verus!
