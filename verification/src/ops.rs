//! Arithmetic capabilities of field elements, integers and group elements.

use vstd::prelude::*;
use vstd::arithmetic::div_mod::{
    lemma_add_mod_noop, lemma_mod_multiples_vanish, lemma_mod_self_0, lemma_mod_twice,
    lemma_small_mod,
};
use vstd::arithmetic::power2::{lemma2_to64, lemma_pow2_unfold, pow2};
use crate::encoding::{be_value, le_value};

verus! {

/// An unsigned integer of fixed width, seen as the natural number it holds.
pub trait Integer: Sized {
    /// The number held.
    spec fn value(&self) -> nat;
}

/// An integer that can be read from a byte array of its own width.
pub trait ArrayEncoding: Integer {
    /// The byte array as wide as the integer.
    type ByteArray;

    /// The bytes of the array, first to last.
    spec fn octets(bytes: &Self::ByteArray) -> Seq<u8>;

    /// Reads the array as a big-endian integer.
    fn from_be_byte_array(bytes: Self::ByteArray) -> (n: Self)
        ensures
            n.value() == be_value(Self::octets(&bytes)),
    ;

    /// Reads the array as a little-endian integer.
    fn from_le_byte_array(bytes: Self::ByteArray) -> (n: Self)
        ensures
            n.value() == le_value(Self::octets(&bytes)),
    ;
}

/// An element of a prime field, seen as its canonical residue.
pub trait FieldElement: Sized {
    /// The field's modulus.
    spec fn modulus() -> nat;

    /// The representative of this element in `[0, modulus)`.
    spec fn residue(&self) -> nat;
}

/// What inverting the residue `x` modulo `p` may give: nothing exactly when
/// `x` is zero in the field, and otherwise a residue `y` with `x * y == 1`.
pub open spec fn is_inverse(p: nat, x: nat, outcome: Option<nat>) -> bool {
    match outcome {
        Some(y) => x % p != 0 && y < p && (x * y) % p == 1,
        None => x % p == 0,
    }
}

/// Perform an inversion on a field element (i.e. base field element or scalar)
pub trait Invert: FieldElement {
    /// The optional that carries the inverse.
    type Output;

    /// The residue that `out` holds, if it holds one.
    spec fn outcome(out: &Self::Output) -> Option<nat>;

    /// Invert a field element.
    fn invert(&self) -> (out: Self::Output)
        ensures
            is_inverse(Self::modulus(), self.residue(), Self::outcome(&out)),
    ;
}

/// The sum of the multiples `a` and `b` of the generator, in a group of
/// order `q`.
pub open spec fn group_sum(q: nat, a: nat, b: nat) -> nat {
    (a + b) % q
}

/// The multiple `a` of the generator taken `k` times, in a group of order `q`.
pub open spec fn group_multiple(q: nat, a: nat, k: nat) -> nat {
    (a * k) % q
}

/// A member of a group of prime order, seen as the multiple of the generator
/// that it is; the identity is the multiple 0.
pub trait Group: Sized {
    /// The integers modulo the group's order.
    type Scalar;

    /// The number of members of the group.
    spec fn order() -> nat;

    /// Which multiple of the generator this member is, in `[0, order)`.
    spec fn multiple(&self) -> nat;

    /// The residue of a scalar, in `[0, order)`.
    spec fn scalar(k: &Self::Scalar) -> nat;

    /// The generator.
    fn generator() -> (g: Self)
        ensures
            g.multiple() == 1,
    ;

    /// The group operation.
    fn plus(&self, rhs: &Self) -> (r: Self)
        ensures
            r.multiple() == group_sum(Self::order(), self.multiple(), rhs.multiple()),
    ;

    /// Multiplication by a scalar.
    fn times(&self, k: &Self::Scalar) -> (r: Self)
        ensures
            r.multiple() == group_multiple(Self::order(), self.multiple(), Self::scalar(k)),
    ;
}

/// Linear combination.
///
/// An implementation may compute both products at once (Shamir's trick); the
/// result is the same member of the group as the one the default gives.
pub trait LinearCombination: Group {
    /// Calculates `x * k + y * l`.
    fn lincomb(x: &Self, k: &Self::Scalar, y: &Self, l: &Self::Scalar) -> (r: Self)
        ensures
            r.multiple() == group_sum(
                Self::order(),
                group_multiple(Self::order(), x.multiple(), Self::scalar(k)),
                group_multiple(Self::order(), y.multiple(), Self::scalar(l)),
            ),
    {
        x.times(k).plus(&y.times(l))
    }
}

/// A linear combination is one multiple of the generator: the sum of the
/// products, taken in the integers and reduced once. This is what lets an
/// implementation compute both products at once.
pub proof fn lincomb_is_one_multiple(q: nat, a: nat, k: nat, b: nat, l: nat)
    requires
        q > 0,
    ensures
        group_sum(q, group_multiple(q, a, k), group_multiple(q, b, l)) == (a * k + b * l) % q,
{
    lemma_add_mod_noop((a * k) as int, (b * l) as int, q as int);
}

/// A linear combination with a zero scalar or the identity on one side is
/// the product on the other side.
pub proof fn lincomb_of_nothing(q: nat, a: nat, k: nat, b: nat, l: nat)
    requires
        q > 0,
        a == 0 || k == 0,
    ensures
        group_sum(q, group_multiple(q, a, k), group_multiple(q, b, l)) == group_multiple(q, b, l),
        group_sum(q, group_multiple(q, b, l), group_multiple(q, a, k)) == group_multiple(q, b, l),
{
    assert(a * k == 0) by (nonlinear_arith)
        requires
            a == 0 || k == 0,
    ;
    lemma_small_mod(0, q);
    lemma_mod_twice((b * l) as int, q as int);
}

/// Multiplication by the generator.
///
/// May use optimizations (e.g. precomputed tables) when available.
pub trait MulByGenerator: Group {
    /// Multiply by the generator of the prime-order subgroup.
    fn mul_by_generator(scalar: &Self::Scalar) -> (r: Self)
        ensures
            r.multiple() == group_multiple(Self::order(), 1, Self::scalar(scalar)),
    {
        Self::generator().times(scalar)
    }
}

/// The generator multiplied by zero, or by the order of the group, is the
/// identity.
pub proof fn generator_multiples_vanish(q: nat)
    requires
        q > 0,
    ensures
        group_multiple(q, 1, 0) == 0,
        group_multiple(q, 1, q) == 0,
{
    lemma_small_mod(0, q);
    lemma_mod_self_0(q as int);
}

/// Modular reduction.
pub trait Reduce<Uint: ArrayEncoding>: FieldElement {
    /// Perform a modular reduction, returning a field element.
    fn from_uint_reduced(n: Uint) -> (r: Self)
        ensures
            r.residue() == n.value() % Self::modulus(),
    ;

    /// Interpret the given byte array as a big endian integer and perform
    /// a modular reduction.
    fn from_be_bytes_reduced(bytes: Uint::ByteArray) -> (r: Self)
        ensures
            r.residue() == be_value(Uint::octets(&bytes)) % Self::modulus(),
    {
        Self::from_uint_reduced(Uint::from_be_byte_array(bytes))
    }

    /// Interpret the given byte array as a little endian integer and perform a
    /// modular reduction.
    fn from_le_bytes_reduced(bytes: Uint::ByteArray) -> (r: Self)
        ensures
            r.residue() == le_value(Uint::octets(&bytes)) % Self::modulus(),
    {
        Self::from_uint_reduced(Uint::from_le_byte_array(bytes))
    }

    /// Interpret the output of a digest as a big endian integer and perform a
    /// modular reduction. The output is as wide as the integer.
    fn from_be_digest_reduced(output: Uint::ByteArray) -> (r: Self)
        ensures
            r.residue() == be_value(Uint::octets(&output)) % Self::modulus(),
    {
        Self::from_be_bytes_reduced(output)
    }

    /// Interpret the output of a digest as a little endian integer and perform
    /// a modular reduction. The output is as wide as the integer.
    fn from_le_digest_reduced(output: Uint::ByteArray) -> (r: Self)
        ensures
            r.residue() == le_value(Uint::octets(&output)) % Self::modulus(),
    {
        Self::from_le_bytes_reduced(output)
    }
}

/// Reduction at the edge of the field: one less than the modulus stays, the
/// modulus itself goes to zero, and twice the modulus and three goes where
/// three goes.
pub proof fn reduction_at_the_modulus(p: nat)
    requires
        p > 0,
    ensures
        ((p - 1) as nat) % p == p - 1,
        p % p == 0,
        (2 * p + 3) % p == 3nat % p,
{
    lemma_small_mod((p - 1) as nat, p);
    lemma_mod_self_0(p as int);
    lemma_mod_multiples_vanish(2, 3, p as int);
}

/// Modular reduction to a non-zero output.
pub trait ReduceNonZero<Uint: ArrayEncoding>: FieldElement {
    /// The nonzero residue that the integer `n` is sent to.
    spec fn nonzero_residue(n: nat) -> nat;

    /// Perform a modular reduction, returning a field element that is never
    /// zero.
    fn from_uint_reduced_nonzero(n: Uint) -> (r: Self)
        ensures
            r.residue() == Self::nonzero_residue(n.value()),
            1 <= r.residue() < Self::modulus(),
    ;
}

/// Right shift this value by one bit, storing the result in-place.
pub trait Shr1: Integer {
    /// Right shift this value by one bit in-place.
    fn shr1(&mut self)
        ensures
            final(self).value() == old(self).value() / 2,
    ;
}

/// The number `n` halved `times` times, each time rounding down.
pub open spec fn halved(n: nat, times: nat) -> nat
    decreases times,
{
    if times == 0 {
        n
    } else {
        halved(n / 2, (times - 1) as nat)
    }
}

/// Halving a number of `w` bits `w` times leaves zero.
pub proof fn halving_exhausts(n: nat, w: nat)
    requires
        n < pow2(w),
    ensures
        halved(n, w) == 0,
    decreases w,
{
    if w == 0 {
        lemma2_to64();
    } else {
        lemma_pow2_unfold(w);
        halving_exhausts(n / 2, (w - 1) as nat);
    }
}

} // verus!
