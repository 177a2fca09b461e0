//! The account: an opening balance that is checked once, and a log of
//! transactions that only grows.

use crate::amount::Amount;
use crate::balance::Balance;
use crate::ledger::heading;
use crate::ledger::lemma_balance_is_replay;
use crate::ledger::lemma_opened_valid;
use crate::ledger::lemma_record;
use crate::ledger::rows;
use crate::ledger::LedgerView;
use crate::timestamp::Timestamp;
use crate::transaction::Transaction;
use crate::transaction::views;
use crate::transaction::TransactionView;
use vstd::prelude::*;
use vstd::string::StringExecFns;

verus! {

/// Why an account could not be opened.
#[derive(Clone, Copy, Debug, PartialEq, Eq, Structural)]
pub enum Error {
    /// The opening balance, which is the value held, is below zero.
    NegativeOpeningBalance(Balance),
}

/// A bank account: its number, the balance it was opened with, and every
/// deposit and withdrawal made since, oldest first.
pub struct BankAccount {
    account_number: String,
    initial_balance: Balance,
    transactions: Vec<Transaction>,
}

impl View for BankAccount {
    type V = LedgerView;

    closed spec fn view(&self) -> LedgerView {
        LedgerView {
            account_number: self.account_number@,
            initial_balance: self.initial_balance@,
            transactions: views(self.transactions@),
        }
    }
}

impl BankAccount {
    #[verifier::type_invariant]
    spec fn well_formed(self) -> bool {
        self@.valid()
    }

    /// Opens an account with no transactions. A negative opening balance is
    /// refused and handed back in the error.
    pub fn create_new_account(account_number: String, initial_balance: Balance) -> (opened: Result<
        BankAccount,
        Error,
    >)
        ensures
            match opened {
                Ok(account) => {
                    &&& initial_balance@ >= 0
                    &&& account@ == LedgerView::opened(account_number@, initial_balance@)
                    &&& account@.balance() == initial_balance@
                    &&& account@.valid()
                },
                Err(error) => {
                    &&& initial_balance@ < 0
                    &&& error == Error::NegativeOpeningBalance(initial_balance)
                },
            },
    {
        if initial_balance.is_negative() {
            return Err(Error::NegativeOpeningBalance(initial_balance));
        }
        proof {
            lemma_opened_valid(account_number@, initial_balance@);
            assert(views(Seq::<Transaction>::empty()) =~= Seq::<TransactionView>::empty());
        }
        Ok(BankAccount { account_number, initial_balance, transactions: Vec::new() })
    }

    /// The account's number, as it was given when the account was opened.
    pub fn account_number(&self) -> (number: &str)
        ensures
            number@ == self@.account_number,
    {
        self.account_number.as_str()
    }

    /// The balance the account was opened with, which is not negative.
    pub fn initial_balance(&self) -> (balance: Balance)
        ensures
            balance@ == self@.initial_balance,
            balance@ >= 0,
    {
        proof {
            use_type_invariant(self);
        }
        self.initial_balance
    }

    /// Every transaction recorded so far, oldest first.
    pub fn transactions(&self) -> (log: &Vec<Transaction>)
        ensures
            views(log@) == self@.transactions,
            self@.valid(),
    {
        proof {
            use_type_invariant(self);
        }
        &self.transactions
    }

    /// The current balance: the one recorded with the latest transaction, or
    /// the opening balance where there is none. It is the opening balance plus
    /// all deposits and minus all withdrawals.
    pub fn balance(&self) -> (balance: Balance)
        ensures
            balance@ == self@.balance(),
            balance@ == self@.replayed_balance(),
            self@.valid(),
    {
        proof {
            use_type_invariant(self);
            lemma_balance_is_replay(self@);
        }
        let count = self.transactions.len();
        if count == 0 {
            self.initial_balance
        } else {
            *self.transactions[count - 1].balance()
        }
    }

    /// Records a deposit of `amount` made at `moment`. The new balance has to
    /// fit a `Balance`.
    pub fn deposit_at(&mut self, amount: Amount, moment: Timestamp)
        requires
            old(self)@.balance() + amount@ <= i64::MAX,
        ensures
            final(self)@ == old(self)@.deposit(amount@, moment@),
            final(self)@.balance() == old(self)@.balance() + amount@,
            final(self)@.transactions.len() == old(self)@.transactions.len() + 1,
            final(self)@.transactions.last().kind is Deposit,
            final(self)@.transactions.last().amount == amount@,
            final(self)@.transactions.last().resulting_balance == final(self)@.balance(),
            final(self)@.up_to(old(self)@.transactions.len() as int) == old(self)@,
            final(self)@.valid(),
    {
        let balance = self.balance() + amount;
        self.record(Transaction::Deposit(moment, amount, balance));
    }

    /// Records a deposit of `amount` made now, by the system clock. The new
    /// balance has to fit a `Balance`. This panics where the system clock
    /// stands before 1970; `deposit_at` takes the moment and never panics.
    pub fn deposit(&mut self, amount: Amount)
        requires
            old(self)@.balance() + amount@ <= i64::MAX,
        ensures
            final(self)@ == old(self)@.deposit(amount@, final(self)@.transactions.last().timestamp),
            final(self)@.balance() == old(self)@.balance() + amount@,
            final(self)@.transactions.len() == old(self)@.transactions.len() + 1,
            final(self)@.transactions.last().kind is Deposit,
            final(self)@.transactions.last().amount == amount@,
            final(self)@.transactions.last().resulting_balance == final(self)@.balance(),
            final(self)@.up_to(old(self)@.transactions.len() as int) == old(self)@,
            final(self)@.valid(),
    {
        let now = Timestamp::now();
        self.deposit_at(amount, now);
    }

    /// Records a withdrawal of `amount` made at `moment`. The balance is not
    /// held against the amount: it may go below zero. The new balance has to
    /// fit a `Balance`.
    pub fn withdraw_at(&mut self, amount: Amount, moment: Timestamp)
        requires
            old(self)@.balance() - amount@ >= i64::MIN,
        ensures
            final(self)@ == old(self)@.withdraw(amount@, moment@),
            final(self)@.balance() == old(self)@.balance() - amount@,
            final(self)@.transactions.len() == old(self)@.transactions.len() + 1,
            final(self)@.transactions.last().kind is Withdraw,
            final(self)@.transactions.last().amount == amount@,
            final(self)@.transactions.last().resulting_balance == final(self)@.balance(),
            final(self)@.up_to(old(self)@.transactions.len() as int) == old(self)@,
            final(self)@.valid(),
    {
        let balance = self.balance() - amount;
        self.record(Transaction::Withdraw(moment, amount, balance));
    }

    /// Records a withdrawal of `amount` made now, by the system clock. The
    /// balance is not held against the amount: it may go below zero. The new
    /// balance has to fit a `Balance`. This panics where the system clock
    /// stands before 1970; `withdraw_at` takes the moment and never panics.
    pub fn withdraw(&mut self, amount: Amount)
        requires
            old(self)@.balance() - amount@ >= i64::MIN,
        ensures
            final(self)@ == old(self)@.withdraw(amount@, final(self)@.transactions.last().timestamp),
            final(self)@.balance() == old(self)@.balance() - amount@,
            final(self)@.transactions.len() == old(self)@.transactions.len() + 1,
            final(self)@.transactions.last().kind is Withdraw,
            final(self)@.transactions.last().amount == amount@,
            final(self)@.transactions.last().resulting_balance == final(self)@.balance(),
            final(self)@.up_to(old(self)@.transactions.len() as int) == old(self)@,
            final(self)@.valid(),
    {
        let now = Timestamp::now();
        self.withdraw_at(amount, now);
    }

    /// The statement of the account: a heading, then one line for each
    /// transaction, oldest first. Every line ends in a line feed.
    pub fn statement(&self) -> (text: String)
        ensures
            text@ == self@.statement(),
    {
        let mut text = String::from_str(" Date       || credit    || debit     || balance");
        text.append("\n");
        let count = self.transactions.len();
        let mut done: usize = 0;
        while done < count
            invariant
                done <= count,
                count == self.transactions@.len(),
                text@ == heading() + rows(views(self.transactions@).take(done as int)),
            decreases count - done,
        {
            let line = self.transactions[done].render();
            text.append(" ");
            text.append(line.as_str());
            text.append("\n");
            done = done + 1;
            assert(views(self.transactions@).take(done as int).drop_last() =~= views(
                self.transactions@,
            ).take(done - 1));
        }
        assert(views(self.transactions@).take(count as int) =~= views(self.transactions@));
        text
    }

    /// The account as text: its number on a line of its own, then its
    /// statement.
    pub fn render(&self) -> (text: String)
        ensures
            text@ == self@.text(),
    {
        let mut text = String::from_str("account number ");
        text.append(self.account_number.as_str());
        text.append("\n");
        let statement = self.statement();
        text.append(statement.as_str());
        text
    }

    /// Appends `transaction`, whose balance is the current one with its amount
    /// applied, to the log.
    fn record(&mut self, transaction: Transaction)
        requires
            transaction@.resulting_balance == old(self)@.balance() + transaction@.signed_amount(),
        ensures
            final(self)@ == old(self)@.record(transaction@),
            final(self)@.balance() == old(self)@.balance() + transaction@.signed_amount(),
            final(self)@.transactions.len() == old(self)@.transactions.len() + 1,
            final(self)@.up_to(old(self)@.transactions.len() as int) == old(self)@,
            final(self)@.valid(),
    {
        proof {
            use_type_invariant(&*self);
            lemma_record(self@, transaction@);
            assert(views(self.transactions@.push(transaction)) =~= views(self.transactions@).push(
                transaction@,
            ));
        }
        let mut transactions = Vec::new();
        core::mem::swap(&mut transactions, &mut self.transactions);
        transactions.push(transaction);
        self.transactions = transactions;
    }
}

} // verus!
