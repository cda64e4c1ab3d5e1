use rusty_bank::{Account, AccountSummary, Amount, ClientId};
use rust_decimal::Decimal;

fn decimal(amount: Amount) -> Decimal {
    Decimal::from_i128_with_scale(amount.mantissa(), amount.scale())
}

#[test]
fn test_computes_available_with_correct_precision_when_serialized() {
    let expected = "\
        client,available,held,total,locked\n\
        1,1.9999,1.0,2.9999,false\n\
    ";

    let account: AccountSummary = AccountSummary::new(
        ClientId(1),
        Amount::new(10, 1).unwrap(),
        Amount::new(29999, 4).unwrap(),
        false,
    );
    let result = format!(
        "client,available,held,total,locked\n{},{},{},{},{}\n",
        account.client().0,
        decimal(account.available()),
        decimal(account.held()),
        decimal(account.total()),
        account.locked()
    );
    assert_eq!(expected.to_string(), result);
}

#[test]
fn test_new_returns_account_with_computed_available_funds() {
    let account =
        AccountSummary::new(ClientId(1), Amount::from_int(5), Amount::from_int(15), false);
    assert_eq!(ClientId(1), account.client());
    assert_eq!(Amount::from_int(10), account.available());
    assert_eq!(Amount::from_int(5), account.held());
    assert_eq!(Amount::from_int(15), account.total());
    assert_eq!(false, account.locked());
}

#[test]
fn test_empty_returns_unlocked_account_with_no_funds() {
    let account = AccountSummary::empty(ClientId(1));
    assert_eq!(ClientId(1), account.client());
    assert_eq!(Amount::from_int(0), account.available());
    assert_eq!(Amount::from_int(0), account.held());
    assert_eq!(Amount::from_int(0), account.total());
    assert_eq!(false, account.locked());
}

#[test]
fn available_can_be_negative() {
    let account =
        AccountSummary::new(ClientId(3), Amount::from_int(10), Amount::from_int(0), true);
    assert_eq!(Amount::from_int(-10), account.available());
    assert_eq!(true, account.locked());
}

#[test]
fn try_new_agrees_with_new() {
    let summary =
        AccountSummary::try_new(ClientId(1), Amount::from_int(5), Amount::from_int(15), false);
    assert_eq!(
        Some(AccountSummary::new(
            ClientId(1),
            Amount::from_int(5),
            Amount::from_int(15),
            false
        )),
        summary
    );
}

#[test]
fn try_new_refuses_an_available_balance_out_of_range() {
    let max = Amount::new(rusty_bank::amount::MAX_MANTISSA, 0).unwrap();
    let min = Amount::new(-rusty_bank::amount::MAX_MANTISSA, 0).unwrap();
    assert_eq!(None, AccountSummary::try_new(ClientId(1), max, min, false));
}

#[test]
fn summary_and_account_round_trip() {
    let account = Account {
        client: ClientId(9),
        held: Amount::new(125, 2).unwrap(),
        total: Amount::new(1000, 1).unwrap(),
        locked: true,
    };
    let summary = AccountSummary::from_account(&account).unwrap();
    assert_eq!(Amount::new(9875, 2).unwrap(), summary.available());
    assert_eq!(account, summary.account());
    assert_eq!(Some(summary), AccountSummary::from_account(&summary.account()));
}
