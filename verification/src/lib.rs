//! Complex-valued eigenvectors ("kets") and the primitives needed to
//! compare, orthonormalize, and compress them.
//!
//! A ket is an ordered sequence of complex amplitudes; a basis is a flat,
//! dense collection of kets of uniform width.  Two representations exist
//! side by side: the full-precision rectangular one (`lossless`) and a
//! reduced-memory polar one with an 8-bit quantized phase (`compact`).
//!
//! The numeric scalar is abstract: every algorithm is written over the
//! [`scalar::Scalar`] trait, and its contract pins the result down
//! elementwise, in evaluation order, for any instance of that trait.
//! An embedder instantiates the crate with its own scalar (typically a
//! wrapper around a hardware floating-point type); the crate itself
//! provides an exact modular-arithmetic instance on `u64`.

pub mod scalar;
pub mod complex;
pub mod lossless;
pub mod compact;

pub use complex::Rect;
pub use lossless::Basis;
pub use lossless::Ket;
pub use lossless::KetRef;
