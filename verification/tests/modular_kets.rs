//! The library driven by its own exact scalar, the ring of integers
//! modulo `2^64`: every expected value here is computed by hand from
//! the contracts, with no floating-point tolerance anywhere.

use kets::complex::{Polar, Rect};
use kets::compact;
use kets::lossless::{Basis, Cereal, Ket, KetRef};

#[test]
fn rect_algebra_is_exact() {
    let a = Rect { real: 2u64, imag: 1u64 };
    let b = Rect { real: 3u64, imag: 1u64 };
    assert_eq!(a.mul(b), Rect { real: 5, imag: 5 });
    assert_eq!(a.add(b), Rect { real: 5, imag: 2 });
    assert_eq!(b.sub(a), Rect { real: 1, imag: 0 });
    assert_eq!(a.conj(), Rect { real: 2, imag: 1u64.wrapping_neg() });
    assert_eq!(a.sqnorm(), 5);
    assert_eq!(Rect::<u64>::zero(), Rect { real: 0, imag: 0 });
    assert_eq!(Rect::<u64>::one(), Rect { real: 1, imag: 0 });
    assert_eq!(Rect::<u64>::i(), Rect { real: 0, imag: 1 });
}

#[test]
fn rect_mul_wraps_like_the_ring() {
    let a = Rect { real: 3u64, imag: 8u64 };
    let b = Rect { real: 1u64, imag: 0u64 };
    // real part is 3*1 - 8*0 = 3; with the factors swapped into the
    // imaginary slots the subtraction wraps below zero.
    assert_eq!(a.mul(b).real, 3);
    let c = Rect { real: 0u64, imag: 1u64 };
    // (3 + 8i) * i = -8 + 3i; -8 wraps to 2^64 - 8.
    assert_eq!(a.mul(c), Rect { real: 8u64.wrapping_neg(), imag: 3 });
}

#[test]
fn polar_phase_bytes_wrap_exactly() {
    let p: Polar<u64> = Polar::from_phase_byte(200);
    let q: Polar<u64> = Polar::from_phase_byte(100);
    assert_eq!(p.mul(q).phase, 44);
    assert_eq!(p.mul(q).abs, 1);
    assert_eq!(p.conj().phase, 56);
    assert_eq!(Polar::<u64>::from_phase_byte(0).conj().phase, 0);
    assert_eq!(p.conj().conj(), p);
    assert_eq!(Polar { abs: 3u64, phase: 7 }.sqnorm(), 9);
    assert_eq!(Polar::<u64>::zero(), Polar { abs: 0, phase: 0 });
    assert_eq!(Polar::<u64>::one(), Polar { abs: 1, phase: 0 });
}

#[test]
fn dot_of_integer_kets() {
    let ar = vec![1u64, 2];
    let ai = vec![0u64, 0];
    let br = vec![3u64, 4];
    let bi = vec![0u64, 0];
    let a = KetRef::new(&ar, &ai);
    let b = KetRef::new(&br, &bi);
    assert_eq!(a.dot(b), Rect { real: 11, imag: 0 });
    assert_eq!(a.sqnorm(), 5);
    assert_eq!(b.sqnorm(), 25);
    assert_eq!(a.overlap(b), 121);
}

#[test]
fn scale_multiplies_every_amplitude() {
    let ar = vec![1u64, 2];
    let ai = vec![0u64, 1];
    let a = KetRef::new(&ar, &ai);
    let scaled = a.scale(Rect { real: 2u64, imag: 0 });
    assert_eq!(scaled.at(0), Rect { real: 2, imag: 0 });
    assert_eq!(scaled.at(1), Rect { real: 4, imag: 2 });
}

#[test]
fn projection_of_integer_ket() {
    let ar = vec![2u64];
    let ai = vec![0u64];
    let br = vec![3u64];
    let bi = vec![0u64];
    let a = Ket::new(ar, ai);
    let b = Ket::new(br, bi);
    // <b|a> = 6, so |b><b|a> has the single amplitude 18.
    let p = a.projected_onto(&b);
    assert_eq!(p.at(0), Rect { real: 18, imag: 0 });
    assert_eq!(p.len(), 1);
}

#[test]
fn basis_layout_reals_then_imags_per_ket() {
    let data: Vec<u64> = (0..12).collect();
    let basis = Basis::new(data, 3);
    assert_eq!(basis.width(), 3);
    assert_eq!(basis.rank(), 2);
    let k0 = basis.ket(0);
    let k1 = basis.ket(1);
    assert_eq!(k0.reals(), &[0u64, 1, 2][..]);
    assert_eq!(k0.imags(), &[3u64, 4, 5][..]);
    assert_eq!(k1.reals(), &[6u64, 7, 8][..]);
    assert_eq!(k1.imags(), &[9u64, 10, 11][..]);
    assert_eq!(k1.at(2), Rect { real: 8, imag: 11 });
}

#[test]
fn insert_appends_one_ket() {
    let mut basis = Basis::new(Vec::new(), 2);
    assert_eq!(basis.rank(), 0);
    basis.insert((&[1u64, 2], &[3u64, 4]));
    basis.insert((&[5u64, 6], &[7u64, 8]));
    assert_eq!(basis.rank(), 2);
    assert_eq!(basis.ket(0).reals(), &[1u64, 2][..]);
    assert_eq!(basis.ket(1).imags(), &[7u64, 8][..]);
}

#[test]
fn cereal_validation_accepts_exact_layouts_only() {
    let good = Cereal { width: 3, data: vec![0u64; 12] };
    assert!(good.is_valid());
    let basis = good.validate();
    assert_eq!(basis.rank(), 2);

    let zero_width = Cereal { width: 0, data: vec![0u64; 12] };
    assert!(!zero_width.is_valid());
    let ragged = Cereal { width: 3, data: vec![0u64; 11] };
    assert!(!ragged.is_valid());
}

#[test]
fn compact_cereal_validation_checks_pairing() {
    let good = compact::Cereal { width: 2, abs: vec![1u64, 2, 3, 4], phase: vec![0u8, 1, 2, 3] };
    assert!(good.is_valid());
    let basis = good.validate();
    assert_eq!(basis.rank(), 2);
    assert_eq!(basis.ket(1).abs(), &[3u64, 4][..]);
    assert_eq!(basis.ket(1).phase(), &[2u8, 3][..]);

    let unpaired = compact::Cereal { width: 2, abs: vec![1u64, 2], phase: vec![0u8] };
    assert!(!unpaired.is_valid());
    let ragged = compact::Cereal { width: 2, abs: vec![1u64, 2, 3], phase: vec![0u8, 1, 2] };
    assert!(!ragged.is_valid());
    let zero_width = compact::Cereal { width: 0, abs: vec![0u64; 0], phase: vec![] };
    assert!(!zero_width.is_valid());
}

#[test]
fn cereal_round_trip_preserves_contents() {
    let data: Vec<u64> = (0..8).collect();
    let basis = Basis::new(data.clone(), 2);
    let raw = basis.clone().cereal();
    assert_eq!(raw.width, 2);
    assert_eq!(raw.data, data);
    assert_eq!(raw.validate(), basis);
}

#[test]
fn compact_insert_appends_one_ket() {
    let mut basis = compact::Basis::new(Vec::new(), Vec::new(), 2);
    basis.insert((&[1u64, 2], &[10u8, 20]));
    assert_eq!(basis.rank(), 1);
    assert_eq!(basis.ket(0).at(1), Polar { abs: 2, phase: 20 });
}

#[test]
fn modular_compression_is_pure_and_shaped() {
    // In the modular instance the magnitude model is the wrapping sum of
    // the components and every quantized phase is zero, so the compact
    // output is exactly predictable.
    let data = vec![1u64, 2, 3, 4];
    let basis = Basis::new(data, 1);
    let table = kets::complex::PhaseTable::<u64>::compute();
    let compressed = basis.lossy_compress(&table);
    assert_eq!(compressed.width(), 1);
    assert_eq!(compressed.rank(), 2);
    assert_eq!(compressed.ket(0).at(0), Polar { abs: 3, phase: 0 });
    assert_eq!(compressed.ket(1).at(0), Polar { abs: 7, phase: 0 });
    assert_eq!(compressed, basis.lossy_compress(&table));
}

#[test]
fn modular_orthonormalization_keeps_shape() {
    // Normalization in the modular instance divides by the ket's own
    // modular norm model; with a single unit-square ket the output is
    // exactly the input.
    let basis = Basis::new(vec![1u64, 0], 1);
    let out = basis.orthonormalize();
    assert_eq!(out.width(), 1);
    assert_eq!(out.rank(), 1);
    assert_eq!(out.ket(0).at(0), Rect { real: 1, imag: 0 });
}

#[test]
fn conversions_from_plain_scalars() {
    assert_eq!(Rect::from(5u64), Rect { real: 5, imag: 0 });
    assert_eq!(Polar::from(3u64), Polar { abs: 3, phase: 0 });
}

#[test]
fn modular_scalar_lexical_cmp() {
    let a = Rect { real: 1u64, imag: 5u64 };
    let b = Rect { real: 1u64, imag: 7u64 };
    assert_eq!(a.lexical_cmp(b), Some(-1));
    assert_eq!(b.lexical_cmp(a), Some(1));
    assert_eq!(a.lexical_cmp(a), Some(0));
}
