//! A generic algebra-construction library.
//!
//! Given a base ring and, per doubling level, the sign a new generator
//! squares to, the Cayley-Dickson construction in [`cayley`] builds complex,
//! split-complex, dual, quaternion and deeper hypercomplex algebras.  For an
//! arbitrary signature, [`blade`] computes the product of basis blades by
//! bitmask, and [`multivector`] builds the dense coefficient algebra on top
//! of it.

pub mod blade;
pub mod cayley;
pub mod laws;
pub mod model;
pub mod multivector;
pub mod ring;
pub mod wrap;

pub use cayley::Complex;
pub use cayley::from_rect;

pub use ring::Conjugable;
pub use ring::Negative;
pub use ring::Null;
pub use ring::Positive;
pub use ring::Ring;
pub use ring::Sign;

pub use wrap::SelfConjugate;

pub use blade::MAX_GENERATORS;
pub use blade::Signature;

pub use multivector::Multivector;

pub use model::Model;
pub use model::Shape;
pub use model::Tag;
