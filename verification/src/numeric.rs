//! Sign test and conversions between the unsigned and the signed money domain,
//! taken from `num_traits`.

use vstd::prelude::*;

verus! {

/// Calls `num_traits::Signed::is_negative` on an `i64`, which tells whether the
/// value is below zero.
#[verifier::external_body]
pub(crate) fn is_negative(value: i64) -> (negative: bool)
    ensures
        negative == (value < 0),
{
    num_traits::Signed::is_negative(&value)
}

/// Calls `num_traits::AsPrimitive::<i64>::as_` on a `u64`, which is the cast
/// `value as i64`: a value up to `i64::MAX` is kept, a larger one comes out
/// 2^64 lower.
#[verifier::external_body]
pub(crate) fn to_signed(value: u64) -> (signed: i64)
    ensures
        signed == if value <= i64::MAX {
            value as int
        } else {
            value - 0x1_0000_0000_0000_0000
        },
{
    num_traits::AsPrimitive::<i64>::as_(value)
}

/// Calls `num_traits::AsPrimitive::<u64>::as_` on an `i64`, which is the cast
/// `value as u64`: a value from zero up is kept, a negative one comes out 2^64
/// higher.
#[verifier::external_body]
pub(crate) fn to_unsigned(value: i64) -> (unsigned: u64)
    ensures
        unsigned == if value >= 0 {
            value as int
        } else {
            value + 0x1_0000_0000_0000_0000
        },
{
    num_traits::AsPrimitive::<u64>::as_(value)
}

} // verus!
