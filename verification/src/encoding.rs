//! The natural number that a string of bytes denotes, in either byte order.

use vstd::prelude::*;

verus! {

/// The value of `bytes` read as a little-endian integer: the first byte is
/// the least significant.
pub open spec fn le_value(bytes: Seq<u8>) -> nat
    decreases bytes.len(),
{
    if bytes.len() == 0 {
        0
    } else {
        bytes[0] as nat + 256 * le_value(bytes.skip(1))
    }
}

/// The value of `bytes` read as a big-endian integer: the last byte is the
/// least significant.
pub open spec fn be_value(bytes: Seq<u8>) -> nat
    decreases bytes.len(),
{
    if bytes.len() == 0 {
        0
    } else {
        256 * be_value(bytes.drop_last()) + bytes.last() as nat
    }
}

/// The two byte orders mirror each other: bytes read least significant first
/// give the number that the same bytes in reverse give when read most
/// significant first.
pub proof fn le_value_is_be_value_reversed(bytes: Seq<u8>)
    ensures
        le_value(bytes) == be_value(bytes.reverse()),
    decreases bytes.len(),
{
    if bytes.len() > 0 {
        le_value_is_be_value_reversed(bytes.skip(1));
        assert(bytes.reverse().drop_last() =~= bytes.skip(1).reverse());
        assert(bytes.reverse().last() == bytes[0]);
    } else {
        assert(bytes.reverse().len() == 0);
    }
}

} // verus!
