use bank_ledger::amount::Amount;
use bank_ledger::balance::Balance;
use bank_ledger::bank_account::BankAccount;
use bank_ledger::timestamp::Timestamp;
use bank_ledger::timestamp::MAX_UNIX_SECONDS;
use bank_ledger::timestamp::MIN_UNIX_SECONDS;
use bank_ledger::transaction::Transaction;
use chrono::DateTime;
use chrono::Utc;

fn at(seconds: i64) -> Timestamp {
    Timestamp::from_unix_seconds(seconds).unwrap()
}

#[test]
fn epoch_is_the_first_of_january_1970() {
    assert_eq!(at(0).date(), "1970/01/01");
    assert_eq!(at(86_399).date(), "1970/01/01");
    assert_eq!(at(86_400).date(), "1970/01/02");
    assert_eq!(at(-1).date(), "1969/12/31");
}

#[test]
fn dates_are_written_year_month_day() {
    assert_eq!(at(1_431_648_000).date(), "2015/05/15");
    assert_eq!(at(951_782_400).date(), "2000/02/29");
    assert_eq!(at(1_700_000_000).date(), "2023/11/14");
}

#[test]
fn timestamp_keeps_its_seconds() {
    assert_eq!(at(0).unix_seconds(), 0);
    assert_eq!(at(-12345).unix_seconds(), -12345);
    assert_eq!(at(1_700_000_000).unix_seconds(), 1_700_000_000);
}

#[test]
fn seconds_without_a_calendar_date_are_refused() {
    assert!(Timestamp::from_unix_seconds(i64::MAX).is_none());
    assert!(Timestamp::from_unix_seconds(i64::MIN).is_none());
    assert!(Timestamp::from_unix_seconds(MIN_UNIX_SECONDS - 1).is_none());
    assert!(Timestamp::from_unix_seconds(MAX_UNIX_SECONDS + 1).is_none());
    assert!(Timestamp::from_unix_seconds(0).is_some());
}

#[test]
fn first_and_last_second_have_a_date() {
    assert_eq!(MIN_UNIX_SECONDS, -8_334_601_228_800);
    assert_eq!(MAX_UNIX_SECONDS, 8_210_266_876_799);
    assert_eq!(at(MIN_UNIX_SECONDS).date(), "-262143/01/01");
    assert_eq!(at(MIN_UNIX_SECONDS + 86_400).date(), "-262143/01/02");
    assert_eq!(at(MAX_UNIX_SECONDS).date(), "+262142/12/31");
    assert_eq!(at(MAX_UNIX_SECONDS - 86_400).date(), "+262142/12/30");
    assert_eq!(at(MIN_UNIX_SECONDS).unix_seconds(), MIN_UNIX_SECONDS);
    assert_eq!(at(MAX_UNIX_SECONDS).unix_seconds(), MAX_UNIX_SECONDS);
}

#[test]
fn range_of_seconds_is_that_of_the_calendar() {
    assert_eq!(DateTime::<Utc>::MIN_UTC.timestamp(), MIN_UNIX_SECONDS);
    assert_eq!(DateTime::<Utc>::MAX_UTC.timestamp(), MAX_UNIX_SECONDS);
    assert!(DateTime::from_timestamp(MIN_UNIX_SECONDS, 0).is_some());
    assert!(DateTime::from_timestamp(MAX_UNIX_SECONDS, 0).is_some());
    assert!(DateTime::from_timestamp(MIN_UNIX_SECONDS - 1, 0).is_none());
    assert!(DateTime::from_timestamp(MAX_UNIX_SECONDS + 1, 0).is_none());
}

#[test]
fn years_outside_four_digits_carry_a_sign() {
    assert_eq!(at(253_402_300_799).date(), "9999/12/31");
    assert_eq!(at(253_402_300_800).date(), "+10000/01/01");
    assert_eq!(at(-62_167_219_200).date(), "0000/01/01");
    assert_eq!(at(-62_167_219_201).date(), "-0001/12/31");
}

#[test]
fn now_has_a_date_of_ten_characters() {
    let date = Timestamp::now().date();
    let bytes = date.as_bytes();
    assert_eq!(bytes.len(), 10);
    for (place, byte) in bytes.iter().enumerate() {
        if place == 4 || place == 7 {
            assert_eq!(*byte, b'/');
        } else {
            assert!(byte.is_ascii_digit());
        }
    }
}

#[test]
fn deposit_line_fills_the_second_amount_column() {
    let deposit = Transaction::Deposit(at(0), Amount::new(100), Balance::new(2100));
    assert_eq!(deposit.render(), "1970/01/01 ||           ||       100 ||    2100");
    assert_eq!(deposit.render_with_date("D"), "D ||           ||       100 ||    2100");
}

#[test]
fn withdraw_line_fills_the_first_amount_column() {
    let withdraw = Transaction::Withdraw(at(86_400), Amount::new(6000), Balance::new(-900));
    assert_eq!(withdraw.render(), "1970/01/02 ||      6000 ||           ||    -900");
    assert_eq!(withdraw.render_with_date(""), " ||      6000 ||           ||    -900");
}

#[test]
fn lines_of_an_afternoon_in_2024() {
    let moment = at(1_704_203_107);
    let withdraw = Transaction::Withdraw(moment, Amount::new(100), Balance::new(50));
    assert_eq!(withdraw.render(), "2024/01/02 ||       100 ||           ||      50");
    assert_eq!(withdraw.render(), format!("2024/01/02 || {:>9} || {:9} || {:>7}", 100, "", 50));
    let deposit = Transaction::Deposit(moment, Amount::new(50), Balance::new(150));
    assert_eq!(deposit.render(), "2024/01/02 ||           ||        50 ||     150");
    assert_eq!(deposit.render(), format!("2024/01/02 || {:9} || {:>9} || {:>7}", "", 50, 150));
}

#[test]
fn wide_numbers_push_the_columns_out() {
    let deposit =
        Transaction::Deposit(at(0), Amount::new(12_345_678_901), Balance::new(12_345_678_901));
    assert_eq!(deposit.render(), "1970/01/01 ||           || 12345678901 || 12345678901");
}

#[test]
fn transaction_balance_is_the_recorded_one() {
    let deposit = Transaction::Deposit(at(0), Amount::new(1), Balance::new(7));
    let withdraw = Transaction::Withdraw(at(0), Amount::new(1), Balance::new(-7));
    assert_eq!(deposit.balance(), &Balance::new(7));
    assert_eq!(withdraw.balance(), &Balance::new(-7));
}

#[test]
fn statement_of_a_new_account_is_the_heading() {
    let account = BankAccount::create_new_account("42".to_string(), Balance::new(0)).unwrap();
    assert_eq!(account.statement(), " Date       || credit    || debit     || balance\n");
    assert_eq!(
        account.render(),
        "account number 42\n Date       || credit    || debit     || balance\n"
    );
}

#[test]
fn statement_of_the_scenario() {
    let mut account =
        BankAccount::create_new_account("0987654323".to_string(), Balance::new(2000)).unwrap();
    account.deposit_at(Amount::new(100), at(1_700_000_000));
    account.deposit_at(Amount::new(3000), at(1_700_086_400));
    account.withdraw_at(Amount::new(6000), at(1_700_172_800));

    let expected = " Date       || credit    || debit     || balance\n \
                    2023/11/14 ||           ||       100 ||    2100\n \
                    2023/11/15 ||           ||      3000 ||    5100\n \
                    2023/11/16 ||      6000 ||           ||    -900\n";
    assert_eq!(account.statement(), expected);
    assert_eq!(account.render(), format!("account number 0987654323\n{}", expected));
}

#[test]
fn statement_has_one_line_for_the_heading_and_one_for_each_transaction() {
    let mut account =
        BankAccount::create_new_account("0987654323".to_string(), Balance::new(2000)).unwrap();
    account.deposit(Amount::new(100));
    account.deposit(Amount::new(3000));
    account.withdraw(Amount::new(6000));

    let statement = account.statement();
    assert!(statement.ends_with('\n'));
    let lines: Vec<&str> = statement.lines().collect();
    assert_eq!(lines.len(), 4);
    assert_eq!(lines[0], " Date       || credit    || debit     || balance");

    let blank = "         ";
    let expected = [(blank, "      100", "   2100"), (blank, "     3000", "   5100"), (
        "     6000",
        blank,
        "   -900",
    )];
    for (line, (first, second, balance)) in lines[1..].iter().zip(expected) {
        let columns: Vec<&str> = line.split(" || ").collect();
        assert_eq!(columns.len(), 4);
        assert_eq!(columns[0].len(), 11);
        assert!(columns[0].starts_with(' '));
        assert_eq!(columns[1], first);
        assert_eq!(columns[2], second);
        assert_eq!(columns[3], balance);
        assert!(!columns[3].trim().is_empty());
    }
}

#[test]
fn rows_of_a_statement_with_small_numbers_are_as_wide_as_the_heading() {
    let mut account =
        BankAccount::create_new_account("1".to_string(), Balance::new(5)).unwrap();
    account.deposit(Amount::new(1));
    account.withdraw(Amount::new(999_999));
    account.deposit(Amount::new(9_999_999));
    let statement = account.statement();
    for line in statement.lines() {
        assert_eq!(line.len(), 48);
    }
}
