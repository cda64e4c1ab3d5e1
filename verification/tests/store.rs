use rusty_bank::amount::MAX_MANTISSA;
use rusty_bank::{Account, AccountStore, Amount, ClientId, InMemoryAccountStore, StoreError};

fn dec(n: i64) -> Amount {
    Amount::from_int(n)
}

#[test]
fn test_get_account() {
    let mut store = InMemoryAccountStore::new();
    let result = store.get_account(ClientId(1));
    assert_eq!(true, result.is_ok());

    result.unwrap().locked = true;
    let result = store.get_account(ClientId(1));
    assert_eq!(true, result.is_err());
}

#[test]
fn test_add_funds() {
    let mut store = InMemoryAccountStore::new();
    store.add_funds(ClientId(2), dec(20)).unwrap();
    store.add_funds(ClientId(2), dec(5)).unwrap();

    let account = store.get_account(ClientId(2)).unwrap();
    assert_eq!(dec(25), account.total);
    assert_eq!(dec(0), account.held);
}

#[test]
fn test_remove_funds() {
    let mut store = InMemoryAccountStore::new();
    store.add_funds(ClientId(2), dec(20)).unwrap();
    store.remove_funds(ClientId(2), dec(5)).unwrap();

    let account = store.get_account(ClientId(2)).unwrap();
    assert_eq!(dec(15), account.total);
    assert_eq!(dec(0), account.held);
}

#[test]
fn test_remove_funds_when_insufficient_available() {
    let mut store = InMemoryAccountStore::new();
    store.add_funds(ClientId(2), dec(20)).unwrap();
    assert_eq!(true, store.remove_funds(ClientId(2), dec(100)).is_err());

    let account = store.get_account(ClientId(2)).unwrap();
    assert_eq!(dec(20), account.total);
    assert_eq!(dec(0), account.held);
}

#[test]
fn empty_account_has_nothing_and_is_unlocked() {
    let account = Account::empty(ClientId(4));
    assert_eq!(
        Account {
            client: ClientId(4),
            held: dec(0),
            total: dec(0),
            locked: false
        },
        account
    );
    assert_eq!(dec(0), account.get_available());
    assert_eq!(Some(dec(0)), account.checked_available());
}

#[test]
fn available_is_total_less_held() {
    let account = Account {
        client: ClientId(1),
        held: dec(10),
        total: dec(4),
        locked: false,
    };
    assert_eq!(dec(-6), account.get_available());
    assert_eq!(Some(dec(-6)), account.checked_available());
}

#[test]
fn checked_available_reports_what_cannot_be_represented() {
    let account = Account {
        client: ClientId(1),
        held: Amount::new(-MAX_MANTISSA, 0).unwrap(),
        total: Amount::new(MAX_MANTISSA, 0).unwrap(),
        locked: false,
    };
    assert_eq!(None, account.checked_available());
}

#[test]
fn get_account_creates_the_account_on_first_reference() {
    let mut store = InMemoryAccountStore::new();
    assert_eq!(0, store.export().len());

    let mut store = InMemoryAccountStore::new();
    assert_eq!(
        Account::empty(ClientId(8)),
        *store.get_account(ClientId(8)).unwrap()
    );
    assert_eq!(vec![Account::empty(ClientId(8))], store.export());
}

#[test]
fn a_failed_withdrawal_still_creates_the_account() {
    let mut store = InMemoryAccountStore::new();
    assert_eq!(
        Err(StoreError::InsufficientFunds),
        store.remove_funds(ClientId(1), dec(5))
    );
    assert_eq!(vec![Account::empty(ClientId(1))], store.export());
}

#[test]
fn remove_funds_may_take_everything_available() {
    let mut store = InMemoryAccountStore::new();
    store.add_funds(ClientId(1), dec(20)).unwrap();
    store.hold_funds(ClientId(1), dec(5)).unwrap();
    assert_eq!(
        Err(StoreError::InsufficientFunds),
        store.remove_funds(ClientId(1), dec(16))
    );
    assert_eq!(Ok(()), store.remove_funds(ClientId(1), dec(15)));
    let account = *store.get_account(ClientId(1)).unwrap();
    assert_eq!(dec(5), account.total);
    assert_eq!(dec(5), account.held);
    assert_eq!(dec(0), account.get_available());
}

#[test]
fn hold_funds_has_no_ceiling() {
    let mut store = InMemoryAccountStore::new();
    store.add_funds(ClientId(1), dec(10)).unwrap();
    assert_eq!(Ok(()), store.hold_funds(ClientId(1), dec(25)));
    let account = *store.get_account(ClientId(1)).unwrap();
    assert_eq!(dec(25), account.held);
    assert_eq!(dec(10), account.total);
    assert_eq!(dec(-15), account.get_available());
}

#[test]
fn release_funds_lowers_held_only() {
    let mut store = InMemoryAccountStore::new();
    store.add_funds(ClientId(1), dec(10)).unwrap();
    store.hold_funds(ClientId(1), dec(7)).unwrap();
    assert_eq!(Ok(()), store.release_funds(ClientId(1), dec(3)));
    let account = *store.get_account(ClientId(1)).unwrap();
    assert_eq!(dec(4), account.held);
    assert_eq!(dec(10), account.total);
    assert_eq!(false, account.locked);
}

#[test]
fn release_and_debit_lowers_both_and_locks() {
    let mut store = InMemoryAccountStore::new();
    store.add_funds(ClientId(1), dec(3)).unwrap();
    store.hold_funds(ClientId(1), dec(5)).unwrap();
    assert_eq!(Ok(()), store.release_and_debit(ClientId(1), dec(5)));
    assert_eq!(
        vec![Account {
            client: ClientId(1),
            held: dec(0),
            total: dec(-2),
            locked: true
        }],
        store.export()
    );
}

#[test]
fn a_locked_account_refuses_every_operation() {
    let mut store = InMemoryAccountStore::new();
    store.add_funds(ClientId(1), dec(10)).unwrap();
    store.hold_funds(ClientId(1), dec(4)).unwrap();
    store.release_and_debit(ClientId(1), dec(4)).unwrap();

    assert_eq!(
        Err(StoreError::AccountLocked),
        store.add_funds(ClientId(1), dec(1))
    );
    assert_eq!(
        Err(StoreError::AccountLocked),
        store.remove_funds(ClientId(1), dec(1))
    );
    assert_eq!(
        Err(StoreError::AccountLocked),
        store.hold_funds(ClientId(1), dec(1))
    );
    assert_eq!(
        Err(StoreError::AccountLocked),
        store.release_funds(ClientId(1), dec(1))
    );
    assert_eq!(
        Err(StoreError::AccountLocked),
        store.release_and_debit(ClientId(1), dec(1))
    );
    assert_eq!(
        Some(StoreError::AccountLocked),
        store.get_account(ClientId(1)).err()
    );
    assert_eq!(Ok(()), store.add_funds(ClientId(2), dec(1)));

    let mut accounts = store.export();
    accounts.sort_by_key(|account| account.client.0);
    assert_eq!(
        vec![
            Account {
                client: ClientId(1),
                held: dec(0),
                total: dec(6),
                locked: true
            },
            Account {
                client: ClientId(2),
                held: dec(0),
                total: dec(1),
                locked: false
            },
        ],
        accounts
    );
}

#[test]
fn a_balance_out_of_range_is_refused_and_nothing_changes() {
    let max = Amount::new(MAX_MANTISSA, 0).unwrap();
    let mut store = InMemoryAccountStore::new();
    store.add_funds(ClientId(1), max).unwrap();
    assert_eq!(Err(StoreError::Overflow), store.add_funds(ClientId(1), dec(1)));
    store.hold_funds(ClientId(1), max).unwrap();
    assert_eq!(Err(StoreError::Overflow), store.hold_funds(ClientId(1), dec(1)));
    assert_eq!(
        vec![Account {
            client: ClientId(1),
            held: max,
            total: max,
            locked: false
        }],
        store.export()
    );
}

#[test]
fn export_hands_out_every_account_once() {
    let mut store = InMemoryAccountStore::new();
    for client in 0..50u16 {
        store.add_funds(ClientId(client), dec(client as i64 + 1)).unwrap();
    }
    let mut accounts = store.export();
    accounts.sort_by_key(|account| account.client.0);
    assert_eq!(50, accounts.len());
    for (i, account) in accounts.iter().enumerate() {
        assert_eq!(ClientId(i as u16), account.client);
        assert_eq!(dec(i as i64 + 1), account.total);
    }
}
