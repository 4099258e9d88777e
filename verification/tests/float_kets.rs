//! The library driven by hardware floating point: the scalar trait is
//! instantiated with wrappers around `f64` (full precision) and `f32`
//! (the compact representation's magnitude type).

use kets::complex::{PhaseTable, Polar, Rect};
use kets::compact;
use kets::lossless::{Basis, Ket, KetRef};
use kets::scalar::{Demote, Scalar};

#[derive(Clone, Copy, Debug, PartialEq)]
struct R64(f64);

#[derive(Clone, Copy, Debug, PartialEq)]
struct R32(f32);

impl Scalar for R64 {
    fn m_zero() -> R64 {
        R64(0.0)
    }
    fn m_one() -> R64 {
        R64(1.0)
    }
    fn m_pi() -> R64 {
        R64(std::f64::consts::PI)
    }
    fn m_of_usize(n: usize) -> R64 {
        R64(n as f64)
    }
    fn m_neg(self) -> R64 {
        R64(-self.0)
    }
    fn m_add(self, other: R64) -> R64 {
        R64(self.0 + other.0)
    }
    fn m_sub(self, other: R64) -> R64 {
        R64(self.0 - other.0)
    }
    fn m_mul(self, other: R64) -> R64 {
        R64(self.0 * other.0)
    }
    fn m_div(self, other: R64) -> R64 {
        R64(self.0 / other.0)
    }
    fn m_rem(self, other: R64) -> R64 {
        R64(self.0 % other.0)
    }
    fn m_sqrt(self) -> R64 {
        R64(self.0.sqrt())
    }
    fn m_hypot(self, other: R64) -> R64 {
        R64(self.0.hypot(other.0))
    }
    fn m_sin(self) -> R64 {
        R64(self.0.sin())
    }
    fn m_cos(self) -> R64 {
        R64(self.0.cos())
    }
    fn m_atan2(self, x: R64) -> R64 {
        R64(self.0.atan2(x.0))
    }
    fn m_round(self) -> R64 {
        R64(self.0.round())
    }
    fn m_trunc_byte(self) -> u8 {
        self.0 as u8
    }
    fn m_lex_cmp(self, other: R64) -> Option<i8> {
        self.0.partial_cmp(&other.0).map(|c| c as i8)
    }
    fn law_add_comm(_: R64, _: R64) {}
    fn law_mul_comm(_: R64, _: R64) {}
    fn law_neg_zero() {}
    fn law_neg_neg(_: R64) {}
    fn law_neg_add(_: R64, _: R64) {}
    fn law_mul_neg_left(_: R64, _: R64) {}
    fn zero() -> R64 {
        R64(0.0)
    }
    fn one() -> R64 {
        R64(1.0)
    }
    fn pi() -> R64 {
        R64(std::f64::consts::PI)
    }
    fn of_usize(n: usize) -> R64 {
        R64(n as f64)
    }
    fn neg(self) -> R64 {
        R64(-self.0)
    }
    fn add(self, other: R64) -> R64 {
        R64(self.0 + other.0)
    }
    fn sub(self, other: R64) -> R64 {
        R64(self.0 - other.0)
    }
    fn mul(self, other: R64) -> R64 {
        R64(self.0 * other.0)
    }
    fn div(self, other: R64) -> R64 {
        R64(self.0 / other.0)
    }
    fn rem(self, other: R64) -> R64 {
        R64(self.0 % other.0)
    }
    fn sqrt(self) -> R64 {
        R64(self.0.sqrt())
    }
    fn hypot(self, other: R64) -> R64 {
        R64(self.0.hypot(other.0))
    }
    fn sin(self) -> R64 {
        R64(self.0.sin())
    }
    fn cos(self) -> R64 {
        R64(self.0.cos())
    }
    fn atan2(self, x: R64) -> R64 {
        R64(self.0.atan2(x.0))
    }
    fn round(self) -> R64 {
        R64(self.0.round())
    }
    fn trunc_byte(self) -> u8 {
        self.0 as u8
    }
    fn lex_cmp(self, other: R64) -> Option<i8> {
        self.0.partial_cmp(&other.0).map(|c| c as i8)
    }
}

impl Scalar for R32 {
    fn m_zero() -> R32 {
        R32(0.0)
    }
    fn m_one() -> R32 {
        R32(1.0)
    }
    fn m_pi() -> R32 {
        R32(std::f32::consts::PI)
    }
    fn m_of_usize(n: usize) -> R32 {
        R32(n as f32)
    }
    fn m_neg(self) -> R32 {
        R32(-self.0)
    }
    fn m_add(self, other: R32) -> R32 {
        R32(self.0 + other.0)
    }
    fn m_sub(self, other: R32) -> R32 {
        R32(self.0 - other.0)
    }
    fn m_mul(self, other: R32) -> R32 {
        R32(self.0 * other.0)
    }
    fn m_div(self, other: R32) -> R32 {
        R32(self.0 / other.0)
    }
    fn m_rem(self, other: R32) -> R32 {
        R32(self.0 % other.0)
    }
    fn m_sqrt(self) -> R32 {
        R32(self.0.sqrt())
    }
    fn m_hypot(self, other: R32) -> R32 {
        R32(self.0.hypot(other.0))
    }
    fn m_sin(self) -> R32 {
        R32(self.0.sin())
    }
    fn m_cos(self) -> R32 {
        R32(self.0.cos())
    }
    fn m_atan2(self, x: R32) -> R32 {
        R32(self.0.atan2(x.0))
    }
    fn m_round(self) -> R32 {
        R32(self.0.round())
    }
    fn m_trunc_byte(self) -> u8 {
        self.0 as u8
    }
    fn m_lex_cmp(self, other: R32) -> Option<i8> {
        self.0.partial_cmp(&other.0).map(|c| c as i8)
    }
    fn law_add_comm(_: R32, _: R32) {}
    fn law_mul_comm(_: R32, _: R32) {}
    fn law_neg_zero() {}
    fn law_neg_neg(_: R32) {}
    fn law_neg_add(_: R32, _: R32) {}
    fn law_mul_neg_left(_: R32, _: R32) {}
    fn zero() -> R32 {
        R32(0.0)
    }
    fn one() -> R32 {
        R32(1.0)
    }
    fn pi() -> R32 {
        R32(std::f32::consts::PI)
    }
    fn of_usize(n: usize) -> R32 {
        R32(n as f32)
    }
    fn neg(self) -> R32 {
        R32(-self.0)
    }
    fn add(self, other: R32) -> R32 {
        R32(self.0 + other.0)
    }
    fn sub(self, other: R32) -> R32 {
        R32(self.0 - other.0)
    }
    fn mul(self, other: R32) -> R32 {
        R32(self.0 * other.0)
    }
    fn div(self, other: R32) -> R32 {
        R32(self.0 / other.0)
    }
    fn rem(self, other: R32) -> R32 {
        R32(self.0 % other.0)
    }
    fn sqrt(self) -> R32 {
        R32(self.0.sqrt())
    }
    fn hypot(self, other: R32) -> R32 {
        R32(self.0.hypot(other.0))
    }
    fn sin(self) -> R32 {
        R32(self.0.sin())
    }
    fn cos(self) -> R32 {
        R32(self.0.cos())
    }
    fn atan2(self, x: R32) -> R32 {
        R32(self.0.atan2(x.0))
    }
    fn round(self) -> R32 {
        R32(self.0.round())
    }
    fn trunc_byte(self) -> u8 {
        self.0 as u8
    }
    fn lex_cmp(self, other: R32) -> Option<i8> {
        self.0.partial_cmp(&other.0).map(|c| c as i8)
    }
}

impl Demote<R32> for R64 {
    fn m_demote(self) -> R32 {
        R32(self.0 as f32)
    }
    fn demote(self) -> R32 {
        R32(self.0 as f32)
    }
}

fn r64(xs: &[f64]) -> Vec<R64> {
    xs.iter().map(|&x| R64(x)).collect()
}

fn random_vector(n: usize) -> Vec<R64> {
    (0..n).map(|_| R64(0.5 - rand::random::<f64>())).collect()
}

#[test]
fn test_dot() {
    let ar = r64(&[1.0, 1.0, 3.0]);
    let ai = r64(&[0.0, 0.0, 0.0]);
    let br = r64(&[1.0, 1.0, 2.0]);
    let bi = r64(&[0.0, 0.0, 0.0]);
    let a = KetRef::new(&ar, &ai);
    let b = KetRef::new(&br, &bi);
    assert_eq!(a.dot(a), Rect { real: R64(11.0), imag: R64(0.0) });
    assert_eq!(a.sqnorm(), R64(11.0));
    assert_eq!(a.dot(b), Rect { real: R64(8.0), imag: R64(0.0) });

    let ar = r64(&[0.0, 0.0, 0.0]);
    let ai = r64(&[1.0, 1.0, 3.0]);
    let br = r64(&[0.0, 0.0, 0.0]);
    let bi = r64(&[1.0, 1.0, 2.0]);
    let a = KetRef::new(&ar, &ai);
    let b = KetRef::new(&br, &bi);
    assert_eq!(a.dot(a), Rect { real: R64(11.0), imag: R64(0.0) });
    assert_eq!(a.sqnorm(), R64(11.0));
    assert_eq!(a.dot(b), Rect { real: R64(8.0), imag: R64(0.0) });

    let ar = r64(&[0.0, 1.0, 0.0]);
    let ai = r64(&[0.0, 0.0, 0.0]);
    let br = r64(&[0.0, 0.0, 0.0]);
    let bi = r64(&[0.0, 1.0, 0.0]);
    let a = KetRef::new(&ar, &ai);
    let b = KetRef::new(&br, &bi);
    assert_eq!(a.dot(b), Rect { real: R64(0.0), imag: R64(1.0) });
    assert_eq!(b.dot(a), Rect { real: R64(0.0), imag: R64(-1.0) });

    let ar = r64(&[1.0, 0.0, 0.0, 0.0, 1.0]);
    let ai = r64(&[0.0, 0.0, 0.0, 0.0, 0.0]);
    let br = r64(&[0.0, 0.0, 0.0, 0.0, 0.0]);
    let bi = r64(&[1.0, 0.0, 0.0, 0.0, 1.0]);
    let a = KetRef::new(&ar, &ai);
    let b = KetRef::new(&br, &bi);
    assert_eq!(a.dot(b), Rect { real: R64(0.0), imag: R64(2.0) });
    assert_eq!(b.dot(a), Rect { real: R64(0.0), imag: R64(-2.0) });
}

#[test]
fn test_normalize() {
    let dim = 200;
    let ket = Ket::new(random_vector(dim), random_vector(dim));
    assert!(1.0 - f64::abs(ket.to_normalized().norm().0) < 1e-12);
    assert!(1.0 - f64::abs(ket.as_ref().to_normalized().norm().0) < 1e-12);
    assert!(1.0 - f64::abs(ket.into_normalized().norm().0) < 1e-12);
}

#[test]
fn test_orthonormalize() {
    let dim = 200;
    let num_kets = 30;

    let data: Vec<R64> = (0..dim * num_kets * 2).map(|_| R64(0.5 - rand::random::<f64>())).collect();
    let basis = Basis::new(data, dim).orthonormalize();
    for i in 0..basis.rank() {
        let ket = basis.ket(i);
        for j in 0..basis.rank() {
            let bra = basis.ket(j);
            if i == j {
                assert!(f64::abs(ket.overlap(bra).0 - 1.0) < 1e-12, "({},{}): {}", i, j, ket.overlap(bra).0);
            } else {
                assert!(f64::abs(ket.overlap(bra).0) < 1e-12, "({},{}): {}", i, j, ket.overlap(bra).0);
            }
        }
    }
}

#[test]
fn self_overlap_is_sqnorm_of_self_dot() {
    let ar = r64(&[1.0, -2.0, 0.5]);
    let ai = r64(&[0.25, 3.0, -1.0]);
    let a = KetRef::new(&ar, &ai);
    assert_eq!(a.overlap(a), a.dot(a).sqnorm());
    assert_eq!(a.dot(a).imag, R64(0.0));
}

#[test]
fn dot_is_hermitian() {
    let ar = r64(&[1.0, -2.0, 0.5, 4.0]);
    let ai = r64(&[0.25, 3.0, -1.0, 0.125]);
    let br = r64(&[2.0, 0.0, -0.75, 1.5]);
    let bi = r64(&[-1.0, 0.5, 8.0, 0.0]);
    let a = KetRef::new(&ar, &ai);
    let b = KetRef::new(&br, &bi);
    assert_eq!(a.dot(b), b.dot(a).conj());
}

#[test]
fn projection_of_literal_ket() {
    let ar = r64(&[2.0]);
    let ai = r64(&[0.0]);
    let br = r64(&[3.0]);
    let bi = r64(&[0.0]);
    let a = KetRef::new(&ar, &ai);
    let b = KetRef::new(&br, &bi);
    let p = a.projected_onto(b);
    assert_eq!(p.at(0), Rect { real: R64(18.0), imag: R64(0.0) });
}

#[test]
fn nearest_phase_is_identity_on_table_angles() {
    let table: PhaseTable<R32> = PhaseTable::compute();
    for p in 0..=255u8 {
        let angle = R64(table.radians(p).0 as f64);
        assert_eq!(table.nearest_phase(angle), p, "phase code {}", p);
    }
}

#[test]
fn table_entries_lie_on_unit_circle() {
    let table: PhaseTable<R32> = PhaseTable::compute();
    for p in 0..=255u8 {
        let c = table.cos(p).0;
        let s = table.sin(p).0;
        assert!((c * c + s * s - 1.0).abs() < 1e-6, "phase code {}", p);
    }
    assert_eq!(table.fraction(128).0, 0.5);
    assert_eq!(table.fraction(0).0, 0.0);
    assert!((table.radians(128).0 - std::f32::consts::PI).abs() < 1e-6);
}

#[test]
fn compression_is_deterministic() {
    let dim = 7;
    let num_kets = 4;
    let data: Vec<R64> = (0..dim * num_kets * 2).map(|_| R64(0.5 - rand::random::<f64>())).collect();
    let basis = Basis::new(data, dim);
    let table: PhaseTable<R32> = PhaseTable::compute();
    let once = basis.lossy_compress(&table);
    let twice = basis.lossy_compress(&table);
    assert_eq!(once, twice);
    assert_eq!(once.width(), dim);
    assert_eq!(once.rank(), num_kets);
}

#[test]
fn compression_quantizes_each_amplitude() {
    // One amplitude lying on the positive imaginary axis: magnitude 2,
    // angle a quarter turn, which quantizes to phase code 64.
    let data = r64(&[0.0, 2.0]);
    let basis = Basis::new(data, 1);
    let table: PhaseTable<R32> = PhaseTable::compute();
    let compact_basis = basis.lossy_compress(&table);
    let ket = compact_basis.ket(0);
    let amp = ket.at(0);
    assert_eq!(amp.phase, 64);
    assert_eq!(amp.abs.0, 2.0);
}

#[test]
fn compact_dot_promotes_through_table() {
    let table: PhaseTable<R32> = PhaseTable::compute();
    let a_abs = vec![R32(1.0)];
    let a_phase = vec![0u8];
    let b_abs = vec![R32(1.0)];
    let b_phase = vec![64u8];
    let a = compact::KetRef::new(&a_abs, &a_phase);
    let b = compact::KetRef::new(&b_abs, &b_phase);
    let d = a.dot(b, &table);
    assert!((d.real.0 - 0.0).abs() < 1e-6);
    assert!((d.imag.0 - 1.0).abs() < 1e-6);
}

#[test]
fn compact_dot_is_hermitian_within_table_error() {
    let table: PhaseTable<R32> = PhaseTable::compute();
    let a_abs = vec![R32(1.5), R32(0.25), R32(2.0)];
    let a_phase = vec![3u8, 200u8, 77u8];
    let b_abs = vec![R32(0.5), R32(1.0), R32(4.0)];
    let b_phase = vec![90u8, 13u8, 251u8];
    let a = compact::KetRef::new(&a_abs, &a_phase);
    let b = compact::KetRef::new(&b_abs, &b_phase);
    let ab = a.dot(b, &table);
    let ba = b.dot(a, &table).conj();
    assert!((ab.real.0 - ba.real.0).abs() < 1e-5);
    assert!((ab.imag.0 - ba.imag.0).abs() < 1e-5);
}

#[test]
fn compact_normalization_scales_magnitudes_only() {
    let ket = compact::Ket::new(vec![R32(3.0), R32(4.0)], vec![17u8, 200u8]);
    assert_eq!(ket.sqnorm().0, 25.0);
    assert_eq!(ket.norm().0, 5.0);
    let n = ket.into_normalized();
    assert_eq!(n.at(0), Polar { abs: R32(0.6), phase: 17 });
    assert_eq!(n.at(1), Polar { abs: R32(0.8), phase: 200 });
}

#[test]
fn unit_complex_from_phase_angle() {
    let r = Rect::from_phase(R64(0.0));
    assert_eq!(r, Rect { real: R64(1.0), imag: R64(0.0) });
    let q = Rect::from_phase(R64(std::f64::consts::FRAC_PI_2));
    assert!((q.real.0).abs() < 1e-12);
    assert!((q.imag.0 - 1.0).abs() < 1e-12);
    assert_eq!(Rect::from(R64(2.5)), Rect { real: R64(2.5), imag: R64(0.0) });
}

#[test]
fn lexical_cmp_orders_pairs() {
    let a = Rect { real: R64(1.0), imag: R64(5.0) };
    let b = Rect { real: R64(1.0), imag: R64(7.0) };
    let c = Rect { real: R64(2.0), imag: R64(0.0) };
    assert_eq!(a.lexical_cmp(b), Some(-1));
    assert_eq!(b.lexical_cmp(a), Some(1));
    assert_eq!(a.lexical_cmp(a), Some(0));
    assert_eq!(a.lexical_cmp(c), Some(-1));
    let nan = Rect { real: R64(f64::NAN), imag: R64(0.0) };
    assert_eq!(a.lexical_cmp(nan), None);
}
