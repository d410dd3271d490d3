use crypto_bigint::U256;
use elliptic_curve::ct::{choice_of, is_set};
use elliptic_curve::ops::{ArrayEncoding, Invert, Reduce, ReduceNonZero, Shr1};
use elliptic_curve::tiny::{TinyScalar, ORDER};
use elliptic_curve::uint::rem_small;
use subtle::Choice;

fn scalar(n: u64) -> TinyScalar {
    TinyScalar::from_uint_reduced(U256::from_u64(n))
}

fn be_array(bytes: &[u8]) -> [u8; 32] {
    let mut out = [0u8; 32];
    let start: usize = 32 - bytes.len();
    out[start..].copy_from_slice(bytes);
    out
}

#[test]
fn reduce_keeps_what_is_below_the_modulus() {
    assert_eq!(scalar(6).to_u8(), 6);
    assert_eq!(scalar(0).to_u8(), 0);
    assert_eq!(scalar(1).to_u8(), 1);
}

#[test]
fn reduce_sends_the_modulus_to_zero() {
    assert_eq!(scalar(7).to_u8(), 0);
}

#[test]
fn reduce_wraps_above_the_modulus() {
    assert_eq!(scalar(2 * 7 + 3).to_u8(), 3);
    assert_eq!(scalar(u64::MAX).to_u8(), 1);
}

#[test]
fn reduce_takes_the_whole_width() {
    // 2^255 = (2^3)^85 = 1 modulo 7.
    let mut bytes = [0u8; 32];
    bytes[0] = 0x80;
    assert_eq!(TinyScalar::from_be_bytes_reduced(bytes).to_u8(), 1);
    // 2^256 - 1 = 2 - 1 modulo 7.
    assert_eq!(TinyScalar::from_be_bytes_reduced([0xff; 32]).to_u8(), 1);
}

#[test]
fn be_bytes_are_read_most_significant_first() {
    let n = <U256 as ArrayEncoding>::from_be_byte_array(be_array(&[0x01, 0x02]));
    assert_eq!(n, U256::from_u64(0x0102));
    assert_eq!(TinyScalar::from_be_bytes_reduced(be_array(&[0x01, 0x02])).to_u8(), 6);
}

#[test]
fn le_bytes_are_read_least_significant_first() {
    let mut bytes = [0u8; 32];
    bytes[0] = 0x01;
    bytes[1] = 0x02;
    let n = <U256 as ArrayEncoding>::from_le_byte_array(bytes);
    assert_eq!(n, U256::from_u64(0x0201));
    assert_eq!(TinyScalar::from_le_bytes_reduced(bytes).to_u8(), 2);
}

#[test]
fn bytes_reduce_as_the_integer_they_encode() {
    let bytes = be_array(&[0xde, 0xad, 0xbe, 0xef]);
    let by_bytes = TinyScalar::from_be_bytes_reduced(bytes);
    let by_uint = scalar(0xdead_beef);
    assert_eq!(by_bytes, by_uint);
    assert_eq!(by_bytes.to_u8(), 6);
    let mut le = bytes;
    le.reverse();
    assert_eq!(TinyScalar::from_le_bytes_reduced(le), by_uint);
}

#[test]
fn digest_output_reduces_as_bytes() {
    let output = be_array(&[0x12, 0x34, 0x56]);
    assert_eq!(TinyScalar::from_be_digest_reduced(output), scalar(0x12_3456));
    assert_eq!(TinyScalar::from_be_digest_reduced(output).to_u8(), 1);
    let mut le = output;
    le.reverse();
    assert_eq!(TinyScalar::from_le_digest_reduced(le), scalar(0x12_3456));
    assert_eq!(TinyScalar::from_le_digest_reduced(output), TinyScalar::from_le_bytes_reduced(output));
}

#[test]
fn nonzero_reduction_is_never_zero() {
    let mut n: u64 = 0;
    while n < 50 {
        let r = TinyScalar::from_uint_reduced_nonzero(U256::from_u64(n)).to_u8();
        assert!(1 <= r && r < ORDER);
        n += 1;
    }
}

#[test]
fn nonzero_reduction_values() {
    assert_eq!(TinyScalar::from_uint_reduced_nonzero(U256::from_u64(0)).to_u8(), 1);
    assert_eq!(TinyScalar::from_uint_reduced_nonzero(U256::from_u64(5)).to_u8(), 6);
    assert_eq!(TinyScalar::from_uint_reduced_nonzero(U256::from_u64(6)).to_u8(), 1);
    assert_eq!(TinyScalar::from_uint_reduced_nonzero(U256::from_u64(7)).to_u8(), 2);
}

#[test]
fn zero_has_no_inverse() {
    let inverse = scalar(0).invert();
    assert_eq!(inverse.is_some().unwrap_u8(), 0);
    assert_eq!(scalar(7).invert().is_none().unwrap_u8(), 1);
}

#[test]
fn inverse_times_element_is_one() {
    let mut k: u64 = 1;
    while k < 7 {
        let x = scalar(k);
        let inverse = x.invert();
        assert_eq!(inverse.is_some().unwrap_u8(), 1);
        let y = inverse.unwrap();
        assert_eq!((x.to_u8() * y.to_u8()) % 7, 1);
        k += 1;
    }
}

#[test]
fn inverse_values() {
    assert_eq!(scalar(1).invert().unwrap().to_u8(), 1);
    assert_eq!(scalar(2).invert().unwrap().to_u8(), 4);
    assert_eq!(scalar(3).invert().unwrap().to_u8(), 5);
    assert_eq!(scalar(6).invert().unwrap().to_u8(), 6);
}

#[test]
fn shr1_halves() {
    let mut n = U256::from_u64(5);
    n.shr1();
    assert_eq!(n, U256::from_u64(2));
    n.shr1();
    assert_eq!(n, U256::from_u64(1));
    n.shr1();
    assert_eq!(n, U256::ZERO);
    n.shr1();
    assert_eq!(n, U256::ZERO);
}

#[test]
fn shr1_fills_the_top_with_zero() {
    let mut n = <U256 as ArrayEncoding>::from_be_byte_array([0xff; 32]);
    n.shr1();
    let mut expected = [0xff; 32];
    expected[0] = 0x7f;
    assert_eq!(n, <U256 as ArrayEncoding>::from_be_byte_array(expected));
}

#[test]
fn shr1_carries_across_limbs() {
    let mut bytes = [0u8; 32];
    bytes[23] = 0x01;
    let mut n = <U256 as ArrayEncoding>::from_be_byte_array(bytes);
    n.shr1();
    assert_eq!(n, U256::from_u64(1 << 63));
}

#[test]
fn shr1_as_often_as_the_width_leaves_zero() {
    let mut n = U256::MAX;
    let mut i: u32 = 0;
    while i < 255 {
        n.shr1();
        i += 1;
    }
    assert_eq!(n, U256::ONE);
    n.shr1();
    assert_eq!(n, U256::ZERO);
}

#[test]
fn rem_small_values() {
    assert_eq!(rem_small(&U256::from_u64(100), 13), 9);
    assert_eq!(rem_small(&U256::from_u64(12), 13), 12);
    assert_eq!(rem_small(&U256::from_u64(13), 13), 0);
    assert_eq!(rem_small(&U256::MAX, 255), 0);
    assert_eq!(rem_small(&U256::MAX, 1), 0);
}

#[test]
fn flags_follow_bools() {
    assert_eq!(choice_of(true).unwrap_u8(), 1);
    assert_eq!(choice_of(false).unwrap_u8(), 0);
    assert!(is_set(&Choice::from(1)));
    assert!(!is_set(&Choice::from(0)));
}
