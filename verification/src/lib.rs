//! Capability contracts shared by elliptic-curve implementations: inversion,
//! modular reduction, halving, point compression and linear combinations.
//!
//! Every contract is stated over a mathematical model: field elements are
//! residues modulo a prime, integers are natural numbers, points are pairs of
//! affine coordinates, and members of a prime-order group are multiples of the
//! generator.

pub mod encoding;
pub mod ct;
pub mod ops;
pub mod point;
pub mod uint;
pub mod tiny;
