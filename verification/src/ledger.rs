//! The ledger as mathematics: an opening balance and the sequence of
//! transactions recorded since, with what holds of every ledger that was opened
//! with a balance of zero or more and changed by deposits and withdrawals only.

use crate::transaction::Kind;
use crate::transaction::TransactionView;
use vstd::prelude::*;

verus! {

/// What all of `transactions` together add to a balance: the deposits minus the
/// withdrawals.
pub open spec fn net_movement(transactions: Seq<TransactionView>) -> int
    decreases transactions.len(),
{
    if transactions.len() == 0 {
        0
    } else {
        net_movement(transactions.drop_last()) + transactions.last().signed_amount()
    }
}

/// The statement lines of `transactions`, oldest first: each is a space, the
/// transaction's line and a line feed.
pub open spec fn rows(transactions: Seq<TransactionView>) -> Seq<char>
    decreases transactions.len(),
{
    if transactions.len() == 0 {
        Seq::empty()
    } else {
        rows(transactions.drop_last()) + " "@ + transactions.last().line() + "\n"@
    }
}

/// The line above the transactions of a statement, with its line feed.
pub open spec fn heading() -> Seq<char> {
    " Date       || credit    || debit     || balance"@ + "\n"@
}

/// A deposit or a withdrawal that has yet to be recorded.
pub enum Operation {
    Deposit { amount: nat, timestamp: int },
    Withdraw { amount: nat, timestamp: int },
}

impl Operation {
    /// Which way the operation moves money.
    pub open spec fn kind(self) -> Kind {
        match self {
            Operation::Deposit { .. } => Kind::Deposit,
            Operation::Withdraw { .. } => Kind::Withdraw,
        }
    }

    /// The amount the operation moves.
    pub open spec fn amount(self) -> nat {
        match self {
            Operation::Deposit { amount, .. } => amount,
            Operation::Withdraw { amount, .. } => amount,
        }
    }

    /// The moment of the operation, in seconds since the Unix epoch.
    pub open spec fn timestamp(self) -> int {
        match self {
            Operation::Deposit { timestamp, .. } => timestamp,
            Operation::Withdraw { timestamp, .. } => timestamp,
        }
    }

    /// What the operation adds to a balance: its amount for a deposit, the
    /// negative of it for a withdrawal.
    pub open spec fn signed_amount(self) -> int {
        match self {
            Operation::Deposit { amount, .. } => amount as int,
            Operation::Withdraw { amount, .. } => -(amount as int),
        }
    }
}

/// An account as plain values.
pub struct LedgerView {
    pub account_number: Seq<char>,
    /// The balance the account was opened with.
    pub initial_balance: int,
    /// Every transaction recorded so far, oldest first.
    pub transactions: Seq<TransactionView>,
}

impl LedgerView {
    /// A new account without transactions.
    pub open spec fn opened(account_number: Seq<char>, initial_balance: int) -> LedgerView {
        LedgerView { account_number, initial_balance, transactions: Seq::empty() }
    }

    /// The current balance: the one recorded with the latest transaction, or
    /// the opening balance where there is none.
    pub open spec fn balance(self) -> int {
        if self.transactions.len() == 0 {
            self.initial_balance
        } else {
            self.transactions.last().resulting_balance
        }
    }

    /// The opening balance with every recorded amount applied to it in order.
    pub open spec fn replayed_balance(self) -> int {
        self.initial_balance + net_movement(self.transactions)
    }

    /// The ledger with one transaction more.
    pub open spec fn record(self, transaction: TransactionView) -> LedgerView {
        LedgerView { transactions: self.transactions.push(transaction), ..self }
    }

    /// The ledger after a deposit of `amount` at `timestamp`.
    pub open spec fn deposit(self, amount: nat, timestamp: int) -> LedgerView {
        self.record(
            TransactionView {
                kind: Kind::Deposit,
                timestamp,
                amount,
                resulting_balance: self.balance() + amount,
            },
        )
    }

    /// The ledger after a withdrawal of `amount` at `timestamp`. The balance
    /// may go below zero.
    pub open spec fn withdraw(self, amount: nat, timestamp: int) -> LedgerView {
        self.record(
            TransactionView {
                kind: Kind::Withdraw,
                timestamp,
                amount,
                resulting_balance: self.balance() - amount,
            },
        )
    }

    /// The ledger after `operation`.
    pub open spec fn apply(self, operation: Operation) -> LedgerView {
        match operation {
            Operation::Deposit { amount, timestamp } => self.deposit(amount, timestamp),
            Operation::Withdraw { amount, timestamp } => self.withdraw(amount, timestamp),
        }
    }

    /// The ledger after all of `operations`, first to last.
    pub open spec fn apply_all(self, operations: Seq<Operation>) -> LedgerView
        decreases operations.len(),
    {
        if operations.len() == 0 {
            self
        } else {
            self.apply_all(operations.drop_last()).apply(operations.last())
        }
    }

    /// The ledger as it was when it held only its first `count` transactions.
    pub open spec fn up_to(self, count: int) -> LedgerView {
        LedgerView { transactions: self.transactions.take(count), ..self }
    }

    /// What every account keeps true: it was opened with a balance of zero or
    /// more, and the balance recorded with each transaction is the opening
    /// balance with the amounts up to and including that transaction applied.
    pub open spec fn valid(self) -> bool {
        &&& self.initial_balance >= 0
        &&& forall|i: int|
            0 <= i < self.transactions.len() ==> (#[trigger] self.transactions[i]).resulting_balance
                == self.up_to(i + 1).replayed_balance()
    }

    /// The statement: the heading, then one line for each transaction, oldest
    /// first.
    pub open spec fn statement(self) -> Seq<char> {
        heading() + rows(self.transactions)
    }

    /// The account number on a line of its own, then the statement.
    pub open spec fn text(self) -> Seq<char> {
        "account number "@ + self.account_number + "\n"@ + self.statement()
    }
}

/// A newly opened account is valid if its opening balance is not negative.
pub proof fn lemma_opened_valid(account_number: Seq<char>, initial_balance: int)
    requires
        initial_balance >= 0,
    ensures
        LedgerView::opened(account_number, initial_balance).valid(),
        LedgerView::opened(account_number, initial_balance).balance() == initial_balance,
{
}

/// The balance of a valid ledger is its opening balance plus the deposits and
/// minus the withdrawals recorded since, applied in order.
pub proof fn lemma_balance_is_replay(ledger: LedgerView)
    requires
        ledger.valid(),
    ensures
        ledger.balance() == ledger.replayed_balance(),
{
    let n = ledger.transactions.len() as int;
    if n > 0 {
        assert(ledger.transactions.take(n) =~= ledger.transactions);
    }
}

/// Recording a transaction adds it after those already recorded, which stay
/// as they were, and makes its balance the current one. Where that balance is
/// the current one with the transaction's amount applied, a valid ledger stays
/// valid.
pub proof fn lemma_record(ledger: LedgerView, transaction: TransactionView)
    ensures
        ledger.record(transaction).transactions.len() == ledger.transactions.len() + 1,
        ledger.record(transaction).transactions.last() == transaction,
        ledger.record(transaction).balance() == transaction.resulting_balance,
        ledger.record(transaction).up_to(ledger.transactions.len() as int) == ledger,
        ledger.valid() && transaction.resulting_balance == ledger.balance()
            + transaction.signed_amount() ==> ledger.record(transaction).valid(),
{
    let after = ledger.record(transaction);
    let n = ledger.transactions.len() as int;
    assert(after.transactions.take(n) =~= ledger.transactions);
    if ledger.valid() && transaction.resulting_balance == ledger.balance()
        + transaction.signed_amount() {
        lemma_balance_is_replay(ledger);
        assert forall|i: int| 0 <= i < after.transactions.len() implies (#[trigger] after.transactions[i]).resulting_balance
            == after.up_to(i + 1).replayed_balance() by {
            if i < n {
                assert(after.transactions.take(i + 1) =~= ledger.transactions.take(i + 1));
            } else {
                assert(after.transactions.take(n + 1) =~= after.transactions);
            }
        }
    }
}

/// A deposit raises the balance by its amount, whatever the balance and the
/// amount are, and adds one entry, a deposit that holds the new balance, after
/// those already recorded. A valid ledger stays valid.
pub proof fn lemma_deposit(ledger: LedgerView, amount: nat, timestamp: int)
    ensures
        ledger.deposit(amount, timestamp).balance() == ledger.balance() + amount,
        ledger.deposit(amount, timestamp).transactions.len() == ledger.transactions.len() + 1,
        ledger.deposit(amount, timestamp).transactions.last().kind is Deposit,
        ledger.deposit(amount, timestamp).transactions.last().amount == amount,
        ledger.deposit(amount, timestamp).transactions.last().timestamp == timestamp,
        ledger.deposit(amount, timestamp).transactions.last().resulting_balance
            == ledger.deposit(amount, timestamp).balance(),
        ledger.deposit(amount, timestamp).up_to(ledger.transactions.len() as int) == ledger,
        ledger.valid() ==> ledger.deposit(amount, timestamp).valid(),
{
    lemma_record(
        ledger,
        TransactionView {
            kind: Kind::Deposit,
            timestamp,
            amount,
            resulting_balance: ledger.balance() + amount,
        },
    );
}

/// A withdrawal lowers the balance by its amount, whatever the balance and the
/// amount are and below zero if the amount is the larger, and adds one entry,
/// a withdrawal that holds the new balance, after those already recorded. A
/// valid ledger stays valid.
pub proof fn lemma_withdraw(ledger: LedgerView, amount: nat, timestamp: int)
    ensures
        ledger.withdraw(amount, timestamp).balance() == ledger.balance() - amount,
        ledger.withdraw(amount, timestamp).transactions.len() == ledger.transactions.len() + 1,
        ledger.withdraw(amount, timestamp).transactions.last().kind is Withdraw,
        ledger.withdraw(amount, timestamp).transactions.last().amount == amount,
        ledger.withdraw(amount, timestamp).transactions.last().timestamp == timestamp,
        ledger.withdraw(amount, timestamp).transactions.last().resulting_balance
            == ledger.withdraw(amount, timestamp).balance(),
        ledger.withdraw(amount, timestamp).up_to(ledger.transactions.len() as int) == ledger,
        ledger.valid() ==> ledger.withdraw(amount, timestamp).valid(),
{
    lemma_record(
        ledger,
        TransactionView {
            kind: Kind::Withdraw,
            timestamp,
            amount,
            resulting_balance: ledger.balance() - amount,
        },
    );
}

/// One operation, of either kind, adds exactly one entry after those already
/// recorded. The entry holds the operation's kind, amount and moment, and the
/// balance before it with the amount applied, which is the new balance.
pub proof fn lemma_apply(ledger: LedgerView, operation: Operation)
    ensures
        ledger.apply(operation).transactions.len() == ledger.transactions.len() + 1,
        ledger.apply(operation).transactions.last().kind == operation.kind(),
        ledger.apply(operation).transactions.last().amount == operation.amount(),
        ledger.apply(operation).transactions.last().timestamp == operation.timestamp(),
        ledger.apply(operation).transactions.last().resulting_balance == ledger.balance()
            + operation.signed_amount(),
        ledger.apply(operation).balance() == ledger.balance() + operation.signed_amount(),
        ledger.apply(operation).up_to(ledger.transactions.len() as int) == ledger,
        ledger.valid() ==> ledger.apply(operation).valid(),
{
    match operation {
        Operation::Deposit { amount, timestamp } => lemma_deposit(ledger, amount, timestamp),
        Operation::Withdraw { amount, timestamp } => lemma_withdraw(ledger, amount, timestamp),
    }
}

/// The log only grows. After any operations on any ledger, of any size and with
/// any balance, the log holds one entry more for each operation; every entry
/// that was there before is there unchanged, in its place; and the account
/// number and the opening balance are what they were.
pub proof fn lemma_append_only(ledger: LedgerView, operations: Seq<Operation>)
    ensures
        ledger.apply_all(operations).transactions.len() == ledger.transactions.len()
            + operations.len(),
        forall|i: int|
            0 <= i < ledger.transactions.len() ==> ledger.apply_all(operations).transactions[i]
                == ledger.transactions[i],
        ledger.apply_all(operations).account_number == ledger.account_number,
        ledger.apply_all(operations).initial_balance == ledger.initial_balance,
        ledger.apply_all(operations).up_to(ledger.transactions.len() as int) == ledger,
    decreases operations.len(),
{
    let n = ledger.transactions.len() as int;
    if operations.len() == 0 {
        assert(ledger.transactions.take(n) =~= ledger.transactions);
    } else {
        let before = ledger.apply_all(operations.drop_last());
        let after = ledger.apply_all(operations);
        lemma_append_only(ledger, operations.drop_last());
        lemma_apply(before, operations.last());
        assert(after.transactions.take(n) =~= before.transactions.take(n));
    }
}

/// The entries come in the order of the operations, none merged or left out:
/// the entry that the operation at place `k` added stands `k` places after the
/// entries that were there before. It holds that operation's kind, amount and
/// moment, and the balance that the operations up to and including it give.
pub proof fn lemma_entries_in_order(ledger: LedgerView, operations: Seq<Operation>)
    ensures
        forall|k: int|
            #![trigger operations[k]]
            0 <= k < operations.len() ==> {
                let entry = ledger.apply_all(operations).transactions[ledger.transactions.len()
                    + k];
                &&& entry.kind == operations[k].kind()
                &&& entry.amount == operations[k].amount()
                &&& entry.timestamp == operations[k].timestamp()
                &&& entry.resulting_balance == ledger.apply_all(operations.take(k)).balance()
                    + operations[k].signed_amount()
                &&& entry.resulting_balance == ledger.apply_all(operations.take(k + 1)).balance()
            },
    decreases operations.len(),
{
    let n = ledger.transactions.len() as int;
    if operations.len() > 0 {
        let earlier = operations.drop_last();
        let before = ledger.apply_all(earlier);
        let after = ledger.apply_all(operations);
        let m = earlier.len() as int;
        lemma_entries_in_order(ledger, earlier);
        lemma_append_only(ledger, earlier);
        lemma_apply(before, operations.last());
        assert forall|k: int| #![trigger operations[k]] 0 <= k < operations.len() implies {
            let entry = after.transactions[n + k];
            &&& entry.kind == operations[k].kind()
            &&& entry.amount == operations[k].amount()
            &&& entry.timestamp == operations[k].timestamp()
            &&& entry.resulting_balance == ledger.apply_all(operations.take(k)).balance()
                + operations[k].signed_amount()
            &&& entry.resulting_balance == ledger.apply_all(operations.take(k + 1)).balance()
        } by {
            if k < m {
                assert(earlier[k] == operations[k]);
                assert(earlier.take(k) =~= operations.take(k));
                assert(earlier.take(k + 1) =~= operations.take(k + 1));
            } else {
                assert(operations.take(m + 1) =~= operations);
            }
        }
    }
}

/// Operations keep a valid ledger valid, so that after any of them its balance
/// is still the opening balance with every recorded amount applied in order.
pub proof fn lemma_operations_keep_valid(ledger: LedgerView, operations: Seq<Operation>)
    requires
        ledger.valid(),
    ensures
        ledger.apply_all(operations).valid(),
        ledger.apply_all(operations).balance() == ledger.apply_all(operations).replayed_balance(),
    decreases operations.len(),
{
    if operations.len() > 0 {
        lemma_operations_keep_valid(ledger, operations.drop_last());
        lemma_apply(ledger.apply_all(operations.drop_last()), operations.last());
    }
    lemma_balance_is_replay(ledger.apply_all(operations));
}

/// An account that was opened and has seen `operations` holds exactly one
/// entry for each of them, in their order, and is valid.
pub proof fn lemma_one_entry_per_operation(
    account_number: Seq<char>,
    initial_balance: int,
    operations: Seq<Operation>,
)
    requires
        initial_balance >= 0,
    ensures
        LedgerView::opened(account_number, initial_balance).apply_all(operations).transactions.len()
            == operations.len(),
        forall|k: int|
            #![trigger operations[k]]
            0 <= k < operations.len() ==> {
                let entry = LedgerView::opened(account_number, initial_balance).apply_all(
                    operations,
                ).transactions[k];
                &&& entry.kind == operations[k].kind()
                &&& entry.amount == operations[k].amount()
                &&& entry.timestamp == operations[k].timestamp()
            },
        LedgerView::opened(account_number, initial_balance).apply_all(operations).valid(),
{
    let ledger = LedgerView::opened(account_number, initial_balance);
    lemma_opened_valid(account_number, initial_balance);
    lemma_append_only(ledger, operations);
    lemma_entries_in_order(ledger, operations);
    lemma_operations_keep_valid(ledger, operations);
}

} // verus!
