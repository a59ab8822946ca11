//! A two-party private set intersection (PSI) protocol engine.
//!
//! A Sender holding a set X and a Receiver holding a set Y jointly compute
//! X ∩ Y (revealed only to the Receiver).  The construction combines
//! Diffie-Hellman key agreement on curve25519, an Elligator2-style bijection
//! between curve points and uniform-looking 32-byte strings, a fixed public
//! 256-bit permutation used to re-randomize representatives, and Lagrange
//! interpolation over the curve's scalar field.

use vstd::prelude::*;

pub mod permutation;
pub mod scalar;
pub mod poly;
pub mod elligator;
pub mod party;

verus! {

/// The failure conditions of the protocol engine.
#[derive(Debug, PartialEq, Eq, Structural, Clone, Copy)]
pub enum Error {
    /// Sampling a representable scalar exhausted its retry bound.
    RepresentationExhausted,
    /// A scalar has no representative for the requested tweak.
    BadScalar,
    /// 32 bytes that do not decode to a curve point.
    BadRepresentative,
    /// Interpolation inputs of unequal length.
    LengthMismatch,
    /// Interpolation over no points at all.
    EmptyInput,
    /// Two interpolation points share an x-coordinate.
    DuplicateAbscissa,
    /// A polynomial of degree less than one reached the second round.
    DegenerateInput,
    /// A round was invoked out of protocol order or on the wrong role.
    InvalidState,
}

} // verus!
