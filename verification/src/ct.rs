//! Constant-time flags and optionals of the `subtle` crate, as contracts see
//! them.

use vstd::prelude::*;
use subtle::{Choice, CtOption};

verus! {

/// `subtle::Choice`, a flag that holds a byte.
#[verifier::external_type_specification]
#[verifier::external_body]
pub struct ExChoice(Choice);

/// `subtle::CtOption`, a value together with a `Choice` that says whether it
/// counts.
#[verifier::external_type_specification]
#[verifier::external_body]
#[verifier::reject_recursive_types(T)]
pub struct ExCtOption<T>(CtOption<T>);

/// The byte inside a `Choice`.
pub uninterp spec fn choice_bit(c: Choice) -> u8;

/// A `Choice` is set when its byte is 1, which is how `subtle` converts one
/// to a `bool`.
pub open spec fn choice_is_set(c: Choice) -> bool {
    choice_bit(c) == 1
}

/// `Choice::from(u8)`: wraps the byte unchanged. The outside function asserts
/// in debug builds that the byte is 0 or 1.
#[verifier::external_body]
fn choice_from_u8(bit: u8) -> (c: Choice)
    requires
        bit <= 1,
    ensures
        choice_bit(c) == bit,
{
    Choice::from(bit)
}

/// `Choice::unwrap_u8`: hands out the byte inside.
#[verifier::external_body]
fn choice_unwrap_u8(c: &Choice) -> (bit: u8)
    ensures
        bit == choice_bit(*c),
{
    c.unwrap_u8()
}

/// A type that says what a `CtOption` of it holds: `Some` of the value when
/// the option's flag is set, `None` otherwise.
pub trait CtView: Sized {
    spec fn ct_view(c: &CtOption<Self>) -> Option<Self>;
}

/// The flag for a `bool`.
pub fn choice_of(b: bool) -> (c: Choice)
    ensures
        choice_is_set(c) == b,
{
    if b {
        choice_from_u8(1)
    } else {
        choice_from_u8(0)
    }
}

/// Whether a flag is set.
pub fn is_set(c: &Choice) -> (b: bool)
    ensures
        b == choice_is_set(*c),
{
    choice_unwrap_u8(c) == 1
}

} // verus!
