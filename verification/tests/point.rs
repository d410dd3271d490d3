use crypto_bigint::U256;
use elliptic_curve::ct::choice_of;
use elliptic_curve::ops::{Group, LinearCombination, MulByGenerator, Reduce};
use elliptic_curve::point::{
    AffineXCoordinate, AffineYIsOdd, DecompactPoint, DecompressPoint, PointCompaction,
    PointCompression,
};
use elliptic_curve::tiny::{TinyCurve, TinyPoint, TinyScalar, FIELD_MODULUS, ORDER};

fn scalar_of(n: u64) -> TinyScalar {
    TinyScalar::from_uint_reduced(U256::from_u64(n))
}

fn coordinates(p: &TinyPoint) -> (u8, bool) {
    (p.x()[0], p.y_is_odd().unwrap_u8() == 1)
}

fn decompressed(x: u8, odd: bool) -> Option<TinyPoint> {
    let out = <TinyPoint as DecompressPoint<TinyCurve>>::decompress(&[x], choice_of(odd));
    Option::from(out)
}

fn decompacted(x: u8) -> Option<TinyPoint> {
    let out = <TinyPoint as DecompactPoint<TinyCurve>>::decompact(&[x]);
    Option::from(out)
}

#[test]
fn generator_coordinates() {
    let g = TinyPoint::generator();
    assert_eq!(coordinates(&g), (7, true));
    assert_eq!(g.index(), 1);
    assert!(!g.is_identity());
}

#[test]
fn multiples_of_the_generator() {
    let expected: [(u8, bool); 6] =
        [(7, true), (8, true), (11, false), (11, true), (8, false), (7, false)];
    let mut k: u8 = 1;
    while k < ORDER {
        let p = TinyPoint::mul_by_generator(&scalar_of(u64::from(k)));
        assert_eq!(coordinates(&p), expected[usize::from(k) - 1]);
        assert_eq!(p, TinyPoint::generator().times(&scalar_of(u64::from(k))));
        assert_eq!(p.index(), k);
        k += 1;
    }
}

#[test]
fn generator_times_zero_is_the_identity() {
    let p = TinyPoint::mul_by_generator(&scalar_of(0));
    assert!(p.is_identity());
    assert_eq!(p, TinyPoint::identity());
}

#[test]
fn generator_times_the_order_is_the_identity() {
    let p = TinyPoint::mul_by_generator(&scalar_of(u64::from(ORDER)));
    assert!(p.is_identity());
}

#[test]
fn addition_follows_the_chord() {
    // The line through (7, 5) and (8, 5) is y = 5, which meets the curve
    // again at (11, 5), so the sum is (11, 8).
    let g = TinyPoint::generator();
    let twice = g.plus(&g);
    assert_eq!(coordinates(&twice), (8, true));
    assert_eq!(coordinates(&g.plus(&twice)), (11, false));
}

#[test]
fn opposite_points_add_to_the_identity() {
    let p = decompressed(7, true).unwrap();
    let q = decompressed(7, false).unwrap();
    assert!(p.plus(&q).is_identity());
    assert_eq!(p.plus(&TinyPoint::identity()), p);
}

#[test]
fn lincomb_is_the_sum_of_the_products() {
    let mut i: u8 = 0;
    while i < ORDER {
        let mut j: u8 = 0;
        while j < ORDER {
            let x = TinyPoint::from_index(i);
            let y = TinyPoint::from_index(j);
            let mut k: u64 = 0;
            while k < 7 {
                let mut l: u64 = 0;
                while l < 7 {
                    let got = TinyPoint::lincomb(&x, &scalar_of(k), &y, &scalar_of(l));
                    let want = x.times(&scalar_of(k)).plus(&y.times(&scalar_of(l)));
                    assert_eq!(got, want);
                    assert_eq!(u64::from(got.index()), (u64::from(i) * k + u64::from(j) * l) % 7);
                    l += 1;
                }
                k += 1;
            }
            j += 1;
        }
        i += 1;
    }
}

#[test]
fn lincomb_values() {
    let g = TinyPoint::generator();
    let h = TinyPoint::from_index(3);
    // 2 * 1 + 4 * 3 = 14, a multiple of the order.
    assert!(TinyPoint::lincomb(&g, &scalar_of(2), &h, &scalar_of(4)).is_identity());
    // 1 * 1 + 1 * 3 = 4
    assert_eq!(coordinates(&TinyPoint::lincomb(&g, &scalar_of(1), &h, &scalar_of(1))), (11, true));
    // a zero scalar leaves the other product
    assert_eq!(TinyPoint::lincomb(&g, &scalar_of(0), &h, &scalar_of(2)), h.times(&scalar_of(2)));
    assert_eq!(TinyPoint::lincomb(&g, &scalar_of(5), &h, &scalar_of(0)), TinyPoint::from_index(5));
    // the identity contributes nothing
    let o = TinyPoint::identity();
    assert_eq!(TinyPoint::lincomb(&o, &scalar_of(5), &h, &scalar_of(1)), h);
}

#[test]
fn decompress_gives_the_point_of_that_parity() {
    assert_eq!(coordinates(&decompressed(7, true).unwrap()), (7, true));
    assert_eq!(decompressed(7, true).unwrap(), TinyPoint::generator());
    assert_eq!(decompressed(7, false).unwrap(), TinyPoint::from_index(6));
    assert_eq!(decompressed(11, false).unwrap(), TinyPoint::from_index(3));
    assert_eq!(decompressed(8, true).unwrap(), TinyPoint::from_index(2));
}

#[test]
fn decompress_round_trips() {
    let mut i: u8 = 1;
    while i < ORDER {
        let p = TinyPoint::from_index(i);
        let out = <TinyPoint as DecompressPoint<TinyCurve>>::decompress(&p.x(), p.y_is_odd());
        assert_eq!(out.is_some().unwrap_u8(), 1);
        assert_eq!(out.unwrap(), p);
        i += 1;
    }
}

#[test]
fn decompress_off_the_curve_is_absent() {
    let mut x: u8 = 0;
    loop {
        let on_curve = x == 7 || x == 8 || x == 11;
        assert_eq!(decompressed(x, true).is_some(), on_curve);
        assert_eq!(decompressed(x, false).is_some(), on_curve);
        if x == u8::MAX {
            break;
        }
        x += 1;
    }
}

#[test]
fn decompress_rejects_what_is_not_in_the_field() {
    assert!(decompressed(7 + FIELD_MODULUS, true).is_none());
    assert!(decompressed(7 + FIELD_MODULUS, false).is_none());
}

#[test]
fn decompact_gives_the_smaller_root() {
    assert_eq!(coordinates(&decompacted(7).unwrap()), (7, true));
    assert_eq!(decompacted(8).unwrap(), TinyPoint::from_index(2));
    assert_eq!(decompacted(11).unwrap(), TinyPoint::from_index(4));
    assert!(decompacted(0).is_none());
    assert!(decompacted(20).is_none());
}

#[test]
fn index_round_trips() {
    let mut i: u8 = 0;
    while i < ORDER {
        assert_eq!(TinyPoint::from_index(i).index(), i);
        i += 1;
    }
    assert!(TinyPoint::from_index(0).is_identity());
}

#[test]
fn identity_accessors_do_not_panic() {
    let o = TinyPoint::identity();
    assert_eq!(o.x(), [0]);
    assert_eq!(o.y_is_odd().unwrap_u8(), 0);
    assert_eq!(o.index(), 0);
}

#[test]
fn compression_settings() {
    assert!(<TinyPoint as PointCompression>::COMPRESS_POINTS);
    assert!(!<TinyPoint as PointCompaction>::COMPACT_POINTS);
}
