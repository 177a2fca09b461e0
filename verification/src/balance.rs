//! The running total of an account.

use crate::amount::Amount;
use crate::numeric::is_negative;
use crate::numeric::to_signed;
use crate::text::decimal_text;
use crate::text::render_signed;
use crate::text::right_aligned;
use std::ops::Add;
use std::ops::Sub;
use vstd::prelude::*;
use vstd::std_specs::ops::AddSpecImpl;
use vstd::std_specs::ops::SubSpecImpl;

verus! {

/// The running total of an account. It may be negative.
#[derive(Clone, Copy, Debug, PartialEq, Eq, Structural)]
pub struct Balance(i64);

impl View for Balance {
    type V = int;

    closed spec fn view(&self) -> int {
        self.0 as int
    }
}

impl Balance {
    /// Wraps `value` as a balance.
    pub fn new(value: i64) -> (balance: Balance)
        ensures
            balance@ == value,
    {
        Balance(value)
    }

    /// The wrapped total.
    pub fn value(&self) -> (value: i64)
        ensures
            value == self@,
    {
        self.0
    }

    /// Whether the balance is below zero.
    pub fn is_negative(&self) -> (negative: bool)
        ensures
            negative == (self@ < 0),
    {
        is_negative(self.0)
    }

    /// The decimal text of the balance, right-aligned in a field of `width`
    /// characters; a width of 0 adds no padding.
    pub fn render(&self, width: usize) -> (text: String)
        ensures
            text@ == right_aligned(decimal_text(self@), width as nat),
    {
        render_signed(self.0, width)
    }
}

impl AddSpecImpl<Amount> for Balance {
    open spec fn obeys_add_spec() -> bool {
        true
    }

    open spec fn add_req(self, rhs: Amount) -> bool {
        self@ + rhs@ <= i64::MAX
    }

    closed spec fn add_spec(self, rhs: Amount) -> Balance {
        Balance((self.0 + rhs@) as i64)
    }
}

impl Add<Amount> for Balance {
    type Output = Balance;

    /// The balance after `rhs` has been added. The sum has to fit the balance.
    fn add(self, rhs: Amount) -> (sum: Balance)
        ensures
            sum@ == self@ + rhs@,
    {
        Balance(self.0.wrapping_add(to_signed(rhs.value())))
    }
}

impl SubSpecImpl<Amount> for Balance {
    open spec fn obeys_sub_spec() -> bool {
        true
    }

    open spec fn sub_req(self, rhs: Amount) -> bool {
        self@ - rhs@ >= i64::MIN
    }

    closed spec fn sub_spec(self, rhs: Amount) -> Balance {
        Balance((self.0 - rhs@) as i64)
    }
}

impl Sub<Amount> for Balance {
    type Output = Balance;

    /// The balance after `rhs` has been taken away. The difference has to fit
    /// the balance.
    fn sub(self, rhs: Amount) -> (difference: Balance)
        ensures
            difference@ == self@ - rhs@,
    {
        Balance(self.0.wrapping_sub(to_signed(rhs.value())))
    }
}

} // verus!
