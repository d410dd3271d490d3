//! The 256-bit unsigned integer of the `crypto-bigint` crate as an integer of
//! this library.

use vstd::prelude::*;
use crypto_bigint::U256;
use crate::encoding::{be_value, le_value};
use crate::ops::{ArrayEncoding, Integer, Shr1};

verus! {

/// `crypto_bigint::UInt`, an unsigned integer of a fixed number of limbs.
#[verifier::external_type_specification]
#[verifier::external_body]
pub struct ExUInt<const LIMBS: usize>(crypto_bigint::UInt<LIMBS>);

/// The number that a `U256` holds.
pub uninterp spec fn uint_value(n: U256) -> nat;

/// `ArrayEncoding::from_be_byte_array` on `U256`: the integer whose
/// big-endian encoding the 32 bytes are.
#[verifier::external_body]
fn uint_from_be_byte_array(bytes: [u8; 32]) -> (n: U256)
    ensures
        uint_value(n) == be_value(bytes@),
{
    crypto_bigint::ArrayEncoding::from_be_byte_array(bytes.into())
}

/// `ArrayEncoding::from_le_byte_array` on `U256`: the integer whose
/// little-endian encoding the 32 bytes are.
#[verifier::external_body]
fn uint_from_le_byte_array(bytes: [u8; 32]) -> (n: U256)
    ensures
        uint_value(n) == le_value(bytes@),
{
    crypto_bigint::ArrayEncoding::from_le_byte_array(bytes.into())
}

/// `ArrayEncoding::to_le_byte_array` on `U256`: the 32 bytes of the
/// little-endian encoding of the integer.
#[verifier::external_body]
fn uint_to_le_byte_array(n: &U256) -> (bytes: [u8; 32])
    ensures
        le_value(bytes@) == uint_value(*n),
{
    crypto_bigint::ArrayEncoding::to_le_byte_array(n).into()
}

/// `UInt::from_u64`: the integer with the value of the word.
#[verifier::external_body]
fn uint_from_u64(word: u64) -> (n: U256)
    ensures
        uint_value(n) == word,
{
    U256::from_u64(word)
}

/// `UInt::wrapping_rem`: the remainder of the division of `n` by `m`. The
/// outside function panics where `m` is zero.
#[verifier::external_body]
fn uint_wrapping_rem(n: &U256, m: &U256) -> (r: U256)
    requires
        uint_value(*m) != 0,
    ensures
        uint_value(r) == uint_value(*n) % uint_value(*m),
{
    n.wrapping_rem(m)
}

/// `UInt::shr_vartime` by one bit: the bits move down by one place, the
/// lowest is dropped and the highest becomes zero.
#[verifier::external_body]
fn uint_shr1(n: &mut U256)
    ensures
        uint_value(*final(n)) == uint_value(*old(n)) / 2,
{
    *n = n.shr_vartime(1);
}

impl Integer for U256 {
    open spec fn value(&self) -> nat {
        uint_value(*self)
    }
}

impl ArrayEncoding for U256 {
    type ByteArray = [u8; 32];

    open spec fn octets(bytes: &[u8; 32]) -> Seq<u8> {
        bytes@
    }

    fn from_be_byte_array(bytes: [u8; 32]) -> (n: Self) {
        uint_from_be_byte_array(bytes)
    }

    fn from_le_byte_array(bytes: [u8; 32]) -> (n: Self) {
        uint_from_le_byte_array(bytes)
    }
}

impl Shr1 for U256 {
    fn shr1(&mut self) {
        uint_shr1(self)
    }
}

/// The remainder of the division of `n` by the nonzero byte `m`.
pub fn rem_small(n: &U256, m: u8) -> (r: u8)
    requires
        m != 0,
    ensures
        r == uint_value(*n) % (m as nat),
{
    let modulus = uint_from_u64(m as u64);
    let rem = uint_wrapping_rem(n, &modulus);
    let bytes = uint_to_le_byte_array(&rem);
    proof {
        low_byte_of_le_value(bytes@);
    }
    bytes[0]
}

/// A little-endian value under 256 is its first byte.
pub proof fn low_byte_of_le_value(bytes: Seq<u8>)
    requires
        bytes.len() > 0,
        le_value(bytes) < 256,
    ensures
        le_value(bytes) == bytes[0],
{
}

} // verus!
