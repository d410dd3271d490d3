//! The curve `y^2 = x^3 + 7` over the field of 13 elements.
//!
//! It has seven points, the identity among them, so its group has prime
//! order and every point is a multiple of the generator `(7, 5)`. The curve is
//! small enough that a point is found by trying every y-coordinate and that
//! the group law is a table. It shows that the contracts of this crate can be
//! met together, and gives them values to be run on; it protects no secret.

use vstd::prelude::*;
use crypto_bigint::U256;
use subtle::{Choice, CtOption};
use crate::ct::{choice_is_set, choice_of, is_set, CtView};
use crate::ops::{
    FieldElement, Group, Integer, Invert, LinearCombination, MulByGenerator, Reduce,
    ReduceNonZero,
};
use crate::point::{
    AffineXCoordinate, AffineYIsOdd, Curve, DecompactPoint, DecompressPoint, Point,
    PointCompaction, PointCompression,
};
use crate::uint::rem_small;

verus! {

/// The number of elements of the coordinate field.
pub const FIELD_MODULUS: u8 = 13;

/// The number of points of the curve.
pub const ORDER: u8 = 7;

/// An integer modulo the order of the curve's group.
#[derive(Clone, Copy, Debug, PartialEq, Eq)]
pub struct TinyScalar {
    k: u8,
}

/// A point of the curve in affine coordinates, or the identity.
#[derive(Clone, Copy, Debug, PartialEq, Eq)]
pub struct TinyPoint {
    x: u8,
    y: u8,
    identity: bool,
}

/// The curve itself.
pub struct TinyCurve;

/// What a `CtOption` of a scalar holds: `Some` of its value where its flag
/// is set.
pub uninterp spec fn ct_scalar(c: CtOption<TinyScalar>) -> Option<TinyScalar>;

/// What a `CtOption` of a point holds: `Some` of its value where its flag is
/// set.
pub uninterp spec fn ct_point(c: CtOption<TinyPoint>) -> Option<TinyPoint>;

/// `CtOption::new` for a scalar: stores the value and the flag as given.
#[verifier::external_body]
fn ct_scalar_new(value: TinyScalar, is_some: Choice) -> (c: CtOption<TinyScalar>)
    ensures
        ct_scalar(c) == (if choice_is_set(is_some) {
            Some(value)
        } else {
            None
        }),
{
    CtOption::new(value, is_some)
}

/// `CtOption::new` for a point: stores the value and the flag as given.
#[verifier::external_body]
fn ct_point_new(value: TinyPoint, is_some: Choice) -> (c: CtOption<TinyPoint>)
    ensures
        ct_point(c) == (if choice_is_set(is_some) {
            Some(value)
        } else {
            None
        }),
{
    CtOption::new(value, is_some)
}

impl CtView for TinyScalar {
    open spec fn ct_view(c: &CtOption<TinyScalar>) -> Option<TinyScalar> {
        ct_scalar(*c)
    }
}

impl CtView for TinyPoint {
    open spec fn ct_view(c: &CtOption<TinyPoint>) -> Option<TinyPoint> {
        ct_point(*c)
    }
}

/// The product of two bytes modulo a third.
fn mul_mod(a: u8, b: u8, m: u8) -> (r: u8)
    requires
        m != 0,
    ensures
        r == (a as nat * b as nat) % (m as nat),
{
    assert(a as nat * b as nat <= 65025) by (nonlinear_arith)
        requires
            a <= 255,
            b <= 255,
    ;
    let wide: u16 = (a as u16) * (b as u16);
    (wide % (m as u16)) as u8
}

/// The product of two numbers that are known.
proof fn product_is(a: nat, b: nat, va: nat, vb: nat)
    requires
        a == va,
        b == vb,
    ensures
        a * b == va * vb,
{
}

/// Modulo 7 the fifth power of a nonzero residue is its inverse.
proof fn fifth_power_inverts(k: nat, k2: nat, k4: nat, k5: nat)
    requires
        0 < k < 7,
        k2 == (k * k) % 7,
        k4 == (k2 * k2) % 7,
        k5 == (k4 * k) % 7,
    ensures
        (k * k5) % 7 == 1,
{
    if k == 1 {
        product_is(k, k, 1, 1);
        product_is(k2, k2, 1, 1);
        product_is(k4, k, 1, 1);
        product_is(k, k5, 1, 1);
    } else if k == 2 {
        product_is(k, k, 2, 2);
        product_is(k2, k2, 4, 4);
        product_is(k4, k, 2, 2);
        product_is(k, k5, 2, 4);
    } else if k == 3 {
        product_is(k, k, 3, 3);
        product_is(k2, k2, 2, 2);
        product_is(k4, k, 4, 3);
        product_is(k, k5, 3, 5);
    } else if k == 4 {
        product_is(k, k, 4, 4);
        product_is(k2, k2, 2, 2);
        product_is(k4, k, 4, 4);
        product_is(k, k5, 4, 2);
    } else if k == 5 {
        product_is(k, k, 5, 5);
        product_is(k2, k2, 4, 4);
        product_is(k4, k, 2, 5);
        product_is(k, k5, 5, 3);
    } else {
        product_is(k, k, 6, 6);
        product_is(k2, k2, 1, 1);
        product_is(k4, k, 1, 6);
        product_is(k, k5, 6, 6);
    }
}

impl TinyScalar {
    #[verifier::type_invariant]
    spec fn canonical(self) -> bool {
        self.k < 7
    }

    /// The residue as a byte.
    pub fn to_u8(&self) -> (k: u8)
        ensures
            k == self.residue(),
            k < ORDER,
    {
        proof {
            use_type_invariant(self);
        }
        self.k
    }
}

impl FieldElement for TinyScalar {
    open spec fn modulus() -> nat {
        7
    }

    closed spec fn residue(&self) -> nat {
        self.k as nat
    }
}

impl Invert for TinyScalar {
    type Output = CtOption<TinyScalar>;

    open spec fn outcome(out: &CtOption<TinyScalar>) -> Option<nat> {
        match ct_scalar(*out) {
            Some(inverse) => Some(inverse.residue()),
            None => None,
        }
    }

    /// Raises to the fifth power, which inverts every nonzero residue, and
    /// flags the result as absent for zero.
    fn invert(&self) -> (out: CtOption<TinyScalar>) {
        proof {
            use_type_invariant(self);
        }
        let k: u8 = self.k;
        let k2: u8 = mul_mod(k, k, 7);
        let k4: u8 = mul_mod(k2, k2, 7);
        let k5: u8 = mul_mod(k4, k, 7);
        proof {
            if k != 0 {
                fifth_power_inverts(k as nat, k2 as nat, k4 as nat, k5 as nat);
            }
        }
        ct_scalar_new(TinyScalar { k: k5 }, choice_of(k != 0))
    }
}

impl Reduce<U256> for TinyScalar {
    fn from_uint_reduced(n: U256) -> (r: Self) {
        TinyScalar { k: rem_small(&n, 7) }
    }
}

impl ReduceNonZero<U256> for TinyScalar {
    open spec fn nonzero_residue(n: nat) -> nat {
        n % 6 + 1
    }

    /// Reduces modulo one less than the modulus and adds one.
    fn from_uint_reduced_nonzero(n: U256) -> (r: Self) {
        TinyScalar { k: rem_small(&n, 6) + 1 }
    }
}

/// Whether `(x, y)` are coordinates in the field that meet the curve's
/// equation.
pub open spec fn satisfies_equation(x: nat, y: nat) -> bool {
    x < 13 && y < 13 && (y * y) % 13 == (x * x * x + 7) % 13
}

/// The squares modulo 13.
pub open spec fn square_mod_13(y: nat) -> nat {
    if y == 0 {
        0
    } else if y == 1 || y == 12 {
        1
    } else if y == 2 || y == 11 {
        4
    } else if y == 3 || y == 10 {
        9
    } else if y == 4 || y == 9 {
        3
    } else if y == 5 || y == 8 {
        12
    } else {
        10
    }
}

proof fn squares_mod_13(y: nat)
    requires
        y < 13,
    ensures
        (y * y) % 13 == square_mod_13(y),
{
    if y == 0 {
    } else if y == 1 {
    } else if y == 2 {
    } else if y == 3 {
    } else if y == 4 {
    } else if y == 5 {
    } else if y == 6 {
    } else if y == 7 {
    } else if y == 8 {
    } else if y == 9 {
    } else if y == 10 {
    } else if y == 11 {
    } else {
        assert(y == 12);
    }
}

impl Curve for TinyCurve {
    type FieldBytes = [u8; 1];

    open spec fn coordinate(bytes: &[u8; 1]) -> nat {
        bytes@[0] as nat
    }

    open spec fn on_curve(x: nat, y: nat) -> bool {
        satisfies_equation(x, y)
    }

    proof fn parity_fixes_root(x: nat, y1: nat, y2: nat) {
        squares_mod_13(y1);
        squares_mod_13(y2);
    }
}

/// Whether the coordinates meet the curve's equation.
fn meets_equation(x: u8, y: u8) -> (b: bool)
    ensures
        b == satisfies_equation(x as nat, y as nat),
{
    if x < 13 && y < 13 {
        let xv: u64 = x as u64;
        let yv: u64 = y as u64;
        assert(xv * xv <= 144 && xv * xv * xv <= 1728) by (nonlinear_arith)
            requires
                xv <= 12,
        ;
        assert(yv * yv <= 144) by (nonlinear_arith)
            requires
                yv <= 12,
        ;
        (yv * yv) % 13 == (xv * xv * xv + 7) % 13
    } else {
        false
    }
}

/// Whether `(x, y)` is a point of the curve with `y` below `bound` and, where
/// `parity` holds one, of that parity (`true` for odd).
pub open spec fn admits(x: nat, y: nat, parity: Option<bool>, bound: nat) -> bool {
    satisfies_equation(x, y) && y < bound && match parity {
        Some(odd) => (y % 2 == 1) == odd,
        None => true,
    }
}

/// Which multiple of the generator the point with the given coordinates is.
pub open spec fn multiple_of(affine: Option<(nat, nat)>) -> nat {
    match affine {
        None => 0,
        Some(xy) => if xy == (7nat, 5nat) {
            1
        } else if xy == (8nat, 5nat) {
            2
        } else if xy == (11nat, 8nat) {
            3
        } else if xy == (11nat, 5nat) {
            4
        } else if xy == (8nat, 8nat) {
            5
        } else if xy == (7nat, 8nat) {
            6
        } else {
            0
        },
    }
}

/// The coordinates of the given multiple of the generator.
pub open spec fn nth_multiple(i: nat) -> Option<(nat, nat)> {
    if i == 1 {
        Some((7nat, 5nat))
    } else if i == 2 {
        Some((8nat, 5nat))
    } else if i == 3 {
        Some((11nat, 8nat))
    } else if i == 4 {
        Some((11nat, 5nat))
    } else if i == 5 {
        Some((8nat, 8nat))
    } else if i == 6 {
        Some((7nat, 8nat))
    } else {
        None
    }
}

/// Every point of the curve is a multiple of the generator, between zero
/// and the order.
pub proof fn points_are_multiples(x: nat, y: nat)
    requires
        satisfies_equation(x, y),
    ensures
        0 < multiple_of(Some((x, y))) < 7,
        nth_multiple(multiple_of(Some((x, y)))) == Some((x, y)),
{
    squares_mod_13(y);
    cube_is(x);
}

/// The multiples of the generator below the order are points of the curve,
/// each another one, and the multiple zero is the identity.
pub proof fn multiples_are_points(i: nat)
    requires
        i < 7,
    ensures
        multiple_of(nth_multiple(i)) == i,
        nth_multiple(i) matches Some(xy) ==> satisfies_equation(xy.0, xy.1),
        nth_multiple(i) is None <==> i == 0,
{
    if let Some(xy) = nth_multiple(i) {
        squares_mod_13(xy.1);
        cube_is(xy.0);
    }
}

/// The cubes modulo 13, seven added.
pub open spec fn cube_plus_7_mod_13(x: nat) -> nat {
    if x == 0 {
        7
    } else if x == 1 || x == 3 || x == 9 {
        8
    } else if x == 2 || x == 5 || x == 6 {
        2
    } else if x == 4 || x == 10 || x == 12 {
        6
    } else {
        12
    }
}

proof fn cube_is(x: nat)
    requires
        x < 13,
    ensures
        (x * x * x + 7) % 13 == cube_plus_7_mod_13(x),
{
    if x == 0 {
        product_is(x, x, 0, 0);
        product_is(x * x, x, 0, 0);
    } else if x == 1 {
        product_is(x, x, 1, 1);
        product_is(x * x, x, 1, 1);
    } else if x == 2 {
        product_is(x, x, 2, 2);
        product_is(x * x, x, 4, 2);
    } else if x == 3 {
        product_is(x, x, 3, 3);
        product_is(x * x, x, 9, 3);
    } else if x == 4 {
        product_is(x, x, 4, 4);
        product_is(x * x, x, 16, 4);
    } else if x == 5 {
        product_is(x, x, 5, 5);
        product_is(x * x, x, 25, 5);
    } else if x == 6 {
        product_is(x, x, 6, 6);
        product_is(x * x, x, 36, 6);
    } else if x == 7 {
        product_is(x, x, 7, 7);
        product_is(x * x, x, 49, 7);
    } else if x == 8 {
        product_is(x, x, 8, 8);
        product_is(x * x, x, 64, 8);
    } else if x == 9 {
        product_is(x, x, 9, 9);
        product_is(x * x, x, 81, 9);
    } else if x == 10 {
        product_is(x, x, 10, 10);
        product_is(x * x, x, 100, 10);
    } else if x == 11 {
        product_is(x, x, 11, 11);
        product_is(x * x, x, 121, 11);
    } else {
        product_is(x, x, 12, 12);
        product_is(x * x, x, 144, 12);
    }
}

impl TinyPoint {
    #[verifier::type_invariant]
    spec fn valid(self) -> bool {
        if self.identity {
            self.x == 0 && self.y == 0
        } else {
            satisfies_equation(self.x as nat, self.y as nat)
        }
    }

    /// The identity of the group.
    pub fn identity() -> (p: Self)
        ensures
            p.affine() is None,
    {
        TinyPoint { x: 0, y: 0, identity: true }
    }

    /// Whether this is the identity.
    pub fn is_identity(&self) -> (b: bool)
        ensures
            b == (self.affine() is None),
    {
        self.identity
    }

    /// The multiple of the generator that this point is.
    pub fn index(&self) -> (i: u8)
        ensures
            i == self.multiple(),
            i < ORDER,
            self.affine() == nth_multiple(i as nat),
    {
        proof {
            use_type_invariant(self);
            if !self.identity {
                points_are_multiples(self.x as nat, self.y as nat);
            }
        }
        if self.identity {
            0
        } else if self.x == 7 && self.y == 5 {
            1
        } else if self.x == 8 && self.y == 5 {
            2
        } else if self.x == 11 && self.y == 8 {
            3
        } else if self.x == 11 && self.y == 5 {
            4
        } else if self.x == 8 && self.y == 8 {
            5
        } else if self.x == 7 && self.y == 8 {
            6
        } else {
            0
        }
    }

    /// The given multiple of the generator.
    pub fn from_index(i: u8) -> (p: Self)
        requires
            i < ORDER,
        ensures
            p.multiple() == i,
            p.affine() == nth_multiple(i as nat),
    {
        if i == 0 {
            TinyPoint { x: 0, y: 0, identity: true }
        } else if i == 1 {
            TinyPoint { x: 7, y: 5, identity: false }
        } else if i == 2 {
            TinyPoint { x: 8, y: 5, identity: false }
        } else if i == 3 {
            TinyPoint { x: 11, y: 8, identity: false }
        } else if i == 4 {
            TinyPoint { x: 11, y: 5, identity: false }
        } else if i == 5 {
            TinyPoint { x: 8, y: 8, identity: false }
        } else {
            TinyPoint { x: 7, y: 8, identity: false }
        }
    }

    /// The point with the x-coordinate `x` and a y-coordinate that `parity`
    /// and `bound` admit; absent where the curve has no such point.
    fn recover(x: u8, parity: Option<bool>, bound: u8) -> (out: CtOption<Self>)
        requires
            bound <= 13,
        ensures
            match ct_point(out) {
                Some(p) => p.affine() matches Some(xy) && xy.0 == x && admits(
                    x as nat,
                    xy.1,
                    parity,
                    bound as nat,
                ),
                None => forall|y: nat| !admits(x as nat, y, parity, bound as nat),
            },
    {
        let mut found = TinyPoint { x: 0, y: 0, identity: true };
        let mut hit = false;
        let mut y: u8 = 0;
        while y < bound
            invariant
                y <= bound <= 13,
                hit ==> (found.affine() matches Some(xy) && xy.0 == x && admits(
                    x as nat,
                    xy.1,
                    parity,
                    bound as nat,
                )),
                !hit ==> forall|c: nat| c < y ==> !admits(x as nat, c, parity, bound as nat),
            decreases bound - y,
        {
            let fits = match parity {
                Some(odd) => (y % 2 == 1) == odd,
                None => true,
            };
            if fits && meets_equation(x, y) {
                found = TinyPoint { x, y, identity: false };
                hit = true;
            }
            y += 1;
        }
        ct_point_new(found, choice_of(hit))
    }
}

impl Point for TinyPoint {
    closed spec fn affine(&self) -> Option<(nat, nat)> {
        if self.identity {
            None
        } else {
            Some((self.x as nat, self.y as nat))
        }
    }
}

impl Group for TinyPoint {
    type Scalar = TinyScalar;

    open spec fn order() -> nat {
        7
    }

    open spec fn multiple(&self) -> nat {
        multiple_of(self.affine())
    }

    open spec fn scalar(k: &TinyScalar) -> nat {
        k.residue()
    }

    fn generator() -> (g: Self) {
        TinyPoint { x: 7, y: 5, identity: false }
    }

    fn plus(&self, rhs: &Self) -> (r: Self) {
        Self::from_index((self.index() + rhs.index()) % 7)
    }

    fn times(&self, k: &TinyScalar) -> (r: Self) {
        Self::from_index(mul_mod(self.index(), k.to_u8(), 7))
    }
}

impl LinearCombination for TinyPoint {

}

impl MulByGenerator for TinyPoint {

}

impl AffineXCoordinate for TinyPoint {
    type FieldRepr = [u8; 1];

    open spec fn decoded(repr: &[u8; 1]) -> nat {
        repr@[0] as nat
    }

    /// The identity gives the byte 0.
    fn x(&self) -> (repr: [u8; 1]) {
        [self.x]
    }
}

impl AffineYIsOdd for TinyPoint {
    /// The identity gives an unset flag.
    fn y_is_odd(&self) -> (odd: Choice) {
        choice_of(self.y % 2 == 1)
    }
}

impl DecompressPoint<TinyCurve> for TinyPoint {
    fn decompress(x: &[u8; 1], y_is_odd: Choice) -> (out: CtOption<Self>) {
        let odd = is_set(&y_is_odd);
        let out = Self::recover(x[0], Some(odd), FIELD_MODULUS);
        proof {
            if ct_point(out) is None {
                assert forall|y: nat| !(#[trigger] satisfies_equation(x@[0] as nat, y) && (y % 2
                    == 1) == odd) by {
                    assert(!admits(x@[0] as nat, y, Some(odd), 13));
                }
            }
        }
        out
    }
}

impl DecompactPoint<TinyCurve> for TinyPoint {
    /// A compact key has the smaller of the two y-coordinates.
    open spec fn compact(y: nat) -> bool {
        y < 7
    }

    fn decompact(x: &[u8; 1]) -> (out: CtOption<Self>) {
        let out = Self::recover(x[0], None, 7);
        proof {
            if ct_point(out) is None {
                assert forall|y: nat| !(#[trigger] satisfies_equation(x@[0] as nat, y) && y < 7) by {
                    assert(!admits(x@[0] as nat, y, None, 7));
                }
            }
        }
        out
    }
}

impl PointCompression for TinyPoint {
    const COMPRESS_POINTS: bool = true;
}

impl PointCompaction for TinyPoint {
    const COMPACT_POINTS: bool = false;
}

} // verus!
