//! The quantity of money moved by one deposit or withdrawal.

use crate::balance::Balance;
use crate::numeric::to_unsigned;
use crate::text::decimal_text;
use crate::text::render_unsigned;
use crate::text::right_aligned;
use std::ops::Add;
use std::ops::Sub;
use vstd::prelude::*;
use vstd::std_specs::ops::AddSpecImpl;
use vstd::std_specs::ops::SubSpecImpl;

verus! {

/// A quantity of money moved by a single transaction. It cannot be negative.
#[derive(Clone, Copy, Debug, PartialEq, Eq, Structural)]
pub struct Amount(u64);

/// An amount under the name that says what sets it apart from a balance.
pub type PositiveAmount = Amount;

impl View for Amount {
    type V = nat;

    closed spec fn view(&self) -> nat {
        self.0 as nat
    }
}

impl Amount {
    /// Wraps `value` as an amount.
    pub fn new(value: u64) -> (amount: Amount)
        ensures
            amount@ == value,
    {
        Amount(value)
    }

    /// The wrapped quantity.
    pub fn value(&self) -> (value: u64)
        ensures
            value == self@,
    {
        self.0
    }

    /// Whether the amount is below zero, which it never is.
    pub fn is_negative(&self) -> (negative: bool)
        ensures
            negative == (self@ < 0),
            !negative,
    {
        false
    }

    /// The decimal text of the amount, right-aligned in a field of `width`
    /// characters; a width of 0 adds no padding.
    pub fn render(&self, width: usize) -> (text: String)
        ensures
            text@ == right_aligned(decimal_text(self@ as int), width as nat),
    {
        render_unsigned(self.0, width)
    }
}

impl AddSpecImpl<Amount> for Amount {
    open spec fn obeys_add_spec() -> bool {
        true
    }

    open spec fn add_req(self, rhs: Amount) -> bool {
        self@ + rhs@ <= u64::MAX
    }

    closed spec fn add_spec(self, rhs: Amount) -> Amount {
        Amount((self.0 + rhs.0) as u64)
    }
}

impl Add<Amount> for Amount {
    type Output = Amount;

    /// The two amounts together. The sum has to fit an amount.
    fn add(self, rhs: Amount) -> (sum: Amount)
        ensures
            sum@ == self@ + rhs@,
    {
        Amount(self.0 + rhs.0)
    }
}

impl SubSpecImpl<Amount> for Amount {
    open spec fn obeys_sub_spec() -> bool {
        true
    }

    open spec fn sub_req(self, rhs: Amount) -> bool {
        rhs@ <= self@
    }

    closed spec fn sub_spec(self, rhs: Amount) -> Amount {
        Amount((self.0 - rhs.0) as u64)
    }
}

impl Sub<Amount> for Amount {
    type Output = Amount;

    /// What is left of this amount without `rhs`, which may not be the larger
    /// of the two.
    fn sub(self, rhs: Amount) -> (difference: Amount)
        ensures
            difference@ == self@ - rhs@,
    {
        Amount(self.0 - rhs.0)
    }
}

impl AddSpecImpl<Balance> for Amount {
    open spec fn obeys_add_spec() -> bool {
        true
    }

    open spec fn add_req(self, rhs: Balance) -> bool {
        0 <= self@ + rhs@ <= u64::MAX
    }

    closed spec fn add_spec(self, rhs: Balance) -> Amount {
        Amount((self.0 + rhs@) as u64)
    }
}

impl Add<Balance> for Amount {
    type Output = Amount;

    /// The amount and the balance together, as an amount: the same number as
    /// the balance plus the amount. The sum has to fit an amount.
    fn add(self, rhs: Balance) -> (sum: Amount)
        ensures
            sum@ == self@ + rhs@,
    {
        Amount(self.0.wrapping_add(to_unsigned(rhs.value())))
    }
}

impl SubSpecImpl<Balance> for Amount {
    open spec fn obeys_sub_spec() -> bool {
        true
    }

    open spec fn sub_req(self, rhs: Balance) -> bool {
        0 <= self@ - rhs@ <= u64::MAX
    }

    closed spec fn sub_spec(self, rhs: Balance) -> Amount {
        Amount((self.0 - rhs@) as u64)
    }
}

impl Sub<Balance> for Amount {
    type Output = Amount;

    /// What is left of the amount without the balance, as an amount. The
    /// difference has to fit an amount.
    fn sub(self, rhs: Balance) -> (difference: Amount)
        ensures
            difference@ == self@ - rhs@,
    {
        Amount(self.0.wrapping_sub(to_unsigned(rhs.value())))
    }
}

} // verus!
