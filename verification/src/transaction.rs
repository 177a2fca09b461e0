//! One recorded deposit or withdrawal and its line in a statement.

use crate::amount::Amount;
use crate::balance::Balance;
use crate::text::decimal_text;
use crate::text::push_spaces;
use crate::text::right_aligned;
use crate::text::spaces;
use crate::timestamp::date_text;
use crate::timestamp::Timestamp;
use vstd::prelude::*;
use vstd::string::StringExecFns;

verus! {

/// Width of each of the two amount columns of a statement.
pub const AMOUNT_WIDTH: usize = 9;

/// Width of the balance column of a statement.
pub const BALANCE_WIDTH: usize = 7;

/// One movement on an account. Each variant holds the moment it was recorded,
/// the amount moved, and the balance of the account right after it.
#[derive(Clone, Copy, Debug, PartialEq, Eq, Structural)]
pub enum Transaction {
    Deposit(Timestamp, Amount, Balance),
    Withdraw(Timestamp, Amount, Balance),
}

/// Which way a transaction moves money.
pub enum Kind {
    Deposit,
    Withdraw,
}

/// A transaction as plain numbers.
pub struct TransactionView {
    pub kind: Kind,
    /// Seconds since the Unix epoch at which the transaction was recorded.
    pub timestamp: int,
    pub amount: nat,
    /// The balance of the account right after the transaction.
    pub resulting_balance: int,
}

impl TransactionView {
    /// What the transaction adds to the balance: the amount for a deposit, its
    /// negative for a withdrawal.
    pub open spec fn signed_amount(self) -> int {
        match self.kind {
            Kind::Deposit => self.amount as int,
            Kind::Withdraw => -(self.amount as int),
        }
    }

    /// The first amount column of the transaction's line, which stands under
    /// the heading `credit`: the amount of a withdrawal, blank for a deposit.
    pub open spec fn withdrawal_column(self) -> Seq<char> {
        match self.kind {
            Kind::Deposit => spaces(AMOUNT_WIDTH as nat),
            Kind::Withdraw => right_aligned(decimal_text(self.amount as int), AMOUNT_WIDTH as nat),
        }
    }

    /// The second amount column of the transaction's line, which stands under
    /// the heading `debit`: the amount of a deposit, blank for a withdrawal.
    pub open spec fn deposit_column(self) -> Seq<char> {
        match self.kind {
            Kind::Deposit => right_aligned(decimal_text(self.amount as int), AMOUNT_WIDTH as nat),
            Kind::Withdraw => spaces(AMOUNT_WIDTH as nat),
        }
    }

    /// The balance column of the transaction's line.
    pub open spec fn balance_column(self) -> Seq<char> {
        right_aligned(decimal_text(self.resulting_balance), BALANCE_WIDTH as nat)
    }

    /// The transaction's line in a statement, given the text of its date: the
    /// date, the column of withdrawals, the column of deposits and the balance,
    /// with ` || ` between the columns.
    pub open spec fn line_with_date(self, date: Seq<char>) -> Seq<char> {
        date + " || "@ + self.withdrawal_column() + " || "@ + self.deposit_column() + " || "@
            + self.balance_column()
    }

    /// The transaction's line in a statement.
    pub open spec fn line(self) -> Seq<char> {
        self.line_with_date(date_text(self.timestamp))
    }
}

impl View for Transaction {
    type V = TransactionView;

    open spec fn view(&self) -> TransactionView {
        match *self {
            Transaction::Deposit(timestamp, amount, balance) => TransactionView {
                kind: Kind::Deposit,
                timestamp: timestamp@,
                amount: amount@,
                resulting_balance: balance@,
            },
            Transaction::Withdraw(timestamp, amount, balance) => TransactionView {
                kind: Kind::Withdraw,
                timestamp: timestamp@,
                amount: amount@,
                resulting_balance: balance@,
            },
        }
    }
}

/// Each of `transactions` as plain numbers, in the same order.
pub open spec fn views(transactions: Seq<Transaction>) -> Seq<TransactionView> {
    transactions.map_values(|t: Transaction| t@)
}

impl Transaction {
    /// The balance of the account right after the transaction.
    pub fn balance(&self) -> (balance: &Balance)
        ensures
            balance@ == self@.resulting_balance,
    {
        match self {
            Transaction::Deposit(_, _, balance) => balance,
            Transaction::Withdraw(_, _, balance) => balance,
        }
    }

    /// The transaction's line in a statement, with `date` in the date column.
    pub fn render_with_date(&self, date: &str) -> (line: String)
        ensures
            line@ == self@.line_with_date(date@),
    {
        let mut line = String::from_str(date);
        line.append(" || ");
        match self {
            Transaction::Deposit(_, amount, balance) => {
                push_spaces(&mut line, AMOUNT_WIDTH);
                line.append(" || ");
                let moved = amount.render(AMOUNT_WIDTH);
                line.append(moved.as_str());
                line.append(" || ");
                let total = balance.render(BALANCE_WIDTH);
                line.append(total.as_str());
            },
            Transaction::Withdraw(_, amount, balance) => {
                let moved = amount.render(AMOUNT_WIDTH);
                line.append(moved.as_str());
                line.append(" || ");
                push_spaces(&mut line, AMOUNT_WIDTH);
                line.append(" || ");
                let total = balance.render(BALANCE_WIDTH);
                line.append(total.as_str());
            },
        }
        line
    }

    /// The transaction's line in a statement: the date it was recorded on, the
    /// amount in the first amount column for a withdrawal and in the second
    /// for a deposit, and the balance after it.
    pub fn render(&self) -> (line: String)
        ensures
            line@ == self@.line(),
    {
        let date = match self {
            Transaction::Deposit(timestamp, _, _) => timestamp.date(),
            Transaction::Withdraw(timestamp, _, _) => timestamp.date(),
        };
        self.render_with_date(date.as_str())
    }
}

} // verus!
