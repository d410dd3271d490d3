//! Capabilities of elliptic curve points.

use vstd::prelude::*;
use subtle::{Choice, CtOption};
use crate::ct::{choice_is_set, CtView};

verus! {

/// A curve over a prime field, seen as the set of its affine points.
pub trait Curve {
    /// A serialized field element.
    type FieldBytes;

    /// The field element that the bytes denote.
    spec fn coordinate(bytes: &Self::FieldBytes) -> nat;

    /// Whether `(x, y)` is an affine point of the curve.
    spec fn on_curve(x: nat, y: nat) -> bool;

    /// The two square roots of a field element differ in parity, so a curve
    /// has at most one point with a given x-coordinate and a given parity
    /// of y.
    proof fn parity_fixes_root(x: nat, y1: nat, y2: nat)
        requires
            Self::on_curve(x, y1),
            Self::on_curve(x, y2),
            y1 % 2 == y2 % 2,
        ensures
            y1 == y2,
    ;
}

/// A point of a curve, seen as its affine coordinates.
pub trait Point: Sized {
    /// The affine coordinates `(x, y)`, or `None` for the identity.
    spec fn affine(&self) -> Option<(nat, nat)>;
}

/// Obtain the affine x-coordinate of an elliptic curve point.
pub trait AffineXCoordinate: Point {
    /// Field element representation.
    type FieldRepr;

    /// The field element that the representation denotes.
    spec fn decoded(repr: &Self::FieldRepr) -> nat;

    /// Get the affine x-coordinate as a serialized field element. What comes
    /// back for the identity is left to the curve.
    fn x(&self) -> (repr: Self::FieldRepr)
        ensures
            self.affine() matches Some(xy) ==> Self::decoded(&repr) == xy.0,
    ;
}

/// Is the affine y-coordinate of this elliptic curve point odd?
pub trait AffineYIsOdd: Point {
    /// Is the affine y-coordinate odd? What comes back for the identity is
    /// left to the curve.
    fn y_is_odd(&self) -> (odd: Choice)
        ensures
            self.affine() matches Some(xy) ==> choice_is_set(odd) == (xy.1 % 2 == 1),
    ;
}

/// What decompressing the x-coordinate `x` with the parity `odd` may give on
/// the curve `C`: the point with that x-coordinate whose y-coordinate has
/// that parity, and nothing exactly when the curve has no such point.
pub open spec fn is_decompression<C: Curve, P: Point>(x: nat, odd: bool, outcome: Option<P>) -> bool {
    match outcome {
        Some(p) => p.affine() matches Some(xy) && xy.0 == x && C::on_curve(x, xy.1) && (xy.1 % 2
            == 1) == odd,
        None => forall|y: nat| !(#[trigger] C::on_curve(x, y) && (y % 2 == 1) == odd),
    }
}

/// Decompress an elliptic curve point.
///
/// Point decompression recovers a curve point from its x-coordinate
/// and a boolean flag indicating whether or not the y-coordinate is odd.
pub trait DecompressPoint<C: Curve>: Point + CtView {
    /// Attempt to decompress an elliptic curve point.
    fn decompress(x: &C::FieldBytes, y_is_odd: Choice) -> (out: CtOption<Self>)
        ensures
            is_decompression::<C, Self>(
                C::coordinate(x),
                choice_is_set(y_is_odd),
                Self::ct_view(&out),
            ),
    ;
}

/// What decompacting the x-coordinate `x` may give on the curve `C`, where
/// `compact` says which y-coordinates compact keys have: the point with that
/// x-coordinate and such a y-coordinate, and nothing exactly when the curve
/// has no such point.
pub open spec fn is_decompaction<C: Curve, P: Point>(
    x: nat,
    compact: spec_fn(nat) -> bool,
    outcome: Option<P>,
) -> bool {
    match outcome {
        Some(p) => p.affine() matches Some(xy) && xy.0 == x && C::on_curve(x, xy.1) && compact(
            xy.1,
        ),
        None => forall|y: nat| !(#[trigger] C::on_curve(x, y) && compact(y)),
    }
}

/// Decompact an elliptic curve point from an x-coordinate.
///
/// Decompaction relies on properties of specially-generated keys but provides
/// a more compact representation than standard point compression.
pub trait DecompactPoint<C: Curve>: Point + CtView {
    /// Whether a compact key may have the y-coordinate `y`.
    spec fn compact(y: nat) -> bool;

    /// Attempt to decompact an elliptic curve point
    fn decompact(x: &C::FieldBytes) -> (out: CtOption<Self>)
        ensures
            is_decompaction::<C, Self>(
                C::coordinate(x),
                |y: nat| Self::compact(y),
                Self::ct_view(&out),
            ),
    ;
}

/// Point compression settings.
pub trait PointCompression {
    /// Should point compression be applied by default?
    const COMPRESS_POINTS: bool;
}

/// Point compaction settings.
pub trait PointCompaction {
    /// Should point compaction be applied by default?
    const COMPACT_POINTS: bool;
}

/// Decompression undoes compression: from the x-coordinate of a point of the
/// curve and the parity of its y-coordinate, decompression gives a point
/// with the same coordinates.
pub proof fn decompress_round_trip<C: Curve, P: Point>(point: P, outcome: Option<P>)
    requires
        point.affine() is Some,
        C::on_curve(point.affine().unwrap().0, point.affine().unwrap().1),
        is_decompression::<C, P>(
            point.affine().unwrap().0,
            point.affine().unwrap().1 % 2 == 1,
            outcome,
        ),
    ensures
        outcome is Some,
        outcome.unwrap().affine() == point.affine(),
{
    let (x, y) = point.affine().unwrap();
    match outcome {
        Some(q) => {
            C::parity_fixes_root(x, y, q.affine().unwrap().1);
        },
        None => {
            assert(C::on_curve(x, y));
        },
    }
}

/// Where no point of the curve has the x-coordinate `x`, decompression gives
/// nothing, whichever parity is asked for.
pub proof fn decompress_off_curve<C: Curve, P: Point>(x: nat, odd: bool, outcome: Option<P>)
    requires
        forall|y: nat| !C::on_curve(x, y),
        is_decompression::<C, P>(x, odd, outcome),
    ensures
        outcome is None,
{
}

/// Decompaction is decompression restricted to compact keys: whatever
/// decompaction gives, decompression gives for the parity of its
/// y-coordinate.
pub proof fn decompact_is_restricted_decompress<C: Curve, P: Point>(
    x: nat,
    compact: spec_fn(nat) -> bool,
    outcome: Option<P>,
)
    requires
        is_decompaction::<C, P>(x, compact, outcome),
        outcome is Some,
    ensures
        is_decompression::<C, P>(x, outcome.unwrap().affine().unwrap().1 % 2 == 1, outcome),
{
}

} // verus!
