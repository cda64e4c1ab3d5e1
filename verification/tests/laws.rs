use rusty_bank::{
    AccountSummary, Amount, ClientId, InMemoryAccountStore, Rejection, StoreError, TransactionId,
    TransactionProcessor, TransactionRecord, TransactionType,
};

fn record(
    transaction_type: TransactionType,
    client: u16,
    tx: u32,
    amount: Option<Amount>,
) -> TransactionRecord {
    TransactionRecord::new(transaction_type, ClientId(client), TransactionId(tx), amount)
}

fn summaries_after(records: Vec<TransactionRecord>) -> Vec<AccountSummary> {
    let mut processor = TransactionProcessor::new(InMemoryAccountStore::new());
    processor.process(records);
    let mut summaries = processor.export().unwrap();
    summaries.sort_by_key(|summary| summary.client().0);
    summaries
}

#[test]
fn total_is_deposits_less_applied_withdrawals() {
    let cents = |n: i128| Some(Amount::new(n, 2).unwrap());
    let summaries = summaries_after(vec![
        record(TransactionType::Deposit, 1, 1, cents(1000)),
        record(TransactionType::Deposit, 2, 2, cents(99)),
        record(TransactionType::Deposit, 1, 3, cents(2050)),
        record(TransactionType::Withdrawal, 1, 4, cents(500)),
        record(TransactionType::Withdrawal, 1, 5, cents(10000)),
        record(TransactionType::Withdrawal, 2, 6, cents(100)),
        record(TransactionType::Withdrawal, 1, 7, cents(2550)),
        record(TransactionType::Withdrawal, 1, 8, cents(1)),
        record(TransactionType::Deposit, 1, 9, cents(1)),
    ]);
    assert_eq!(2, summaries.len());
    // 10.00 + 20.50 - 5.00 - 25.50 + 0.01
    assert_eq!(Amount::new(1, 2).unwrap(), summaries[0].total());
    assert_eq!(Amount::zero(), summaries[0].held());
    assert_eq!(false, summaries[0].locked());
    assert_eq!(Amount::new(99, 2).unwrap(), summaries[1].total());
    assert_eq!(Amount::zero(), summaries[1].held());
}

#[test]
fn available_is_total_less_held_in_every_summary() {
    let units = |n: i64| Some(Amount::from_int(n));
    let summaries = summaries_after(vec![
        record(TransactionType::Deposit, 1, 1, units(10)),
        record(TransactionType::Deposit, 2, 2, units(7)),
        record(TransactionType::Deposit, 3, 3, units(4)),
        record(TransactionType::Withdrawal, 1, 4, units(8)),
        record(TransactionType::Dispute, 1, 1, None),
        record(TransactionType::Dispute, 2, 2, None),
        record(TransactionType::Dispute, 3, 3, None),
        record(TransactionType::Resolve, 2, 2, None),
        record(TransactionType::Chargeback, 3, 3, None),
    ]);
    assert_eq!(3, summaries.len());
    for summary in &summaries {
        assert_eq!(
            Some(summary.available()),
            summary.total().checked_sub(summary.held())
        );
    }
    assert_eq!(Amount::from_int(-8), summaries[0].available());
    assert_eq!(Amount::from_int(7), summaries[1].available());
    assert_eq!(Amount::from_int(0), summaries[2].available());
}

#[test]
fn a_dispute_without_ground_changes_nothing() {
    let units = |n: i64| Some(Amount::from_int(n));
    let base = vec![
        record(TransactionType::Deposit, 1, 1, units(10)),
        record(TransactionType::Withdrawal, 1, 2, units(3)),
        record(TransactionType::Dispute, 1, 1, None),
    ];
    let expected = summaries_after(base.clone());

    for groundless in [
        record(TransactionType::Dispute, 1, 9, None),
        record(TransactionType::Dispute, 1, 2, None),
        record(TransactionType::Dispute, 2, 1, None),
        record(TransactionType::Dispute, 1, 1, None),
    ] {
        let mut records = base.clone();
        records.push(groundless);
        assert_eq!(expected, summaries_after(records));
    }
}

#[test]
fn resolve_and_chargeback_without_an_open_case_change_nothing() {
    let units = |n: i64| Some(Amount::from_int(n));
    let base = vec![
        record(TransactionType::Deposit, 1, 1, units(10)),
        record(TransactionType::Deposit, 1, 2, units(5)),
        record(TransactionType::Dispute, 1, 1, None),
        record(TransactionType::Resolve, 1, 1, None),
        record(TransactionType::Dispute, 1, 2, None),
    ];
    let expected = summaries_after(base.clone());
    assert_eq!(Amount::from_int(5), expected[0].held());

    for kind in [TransactionType::Resolve, TransactionType::Chargeback] {
        for (client, tx) in [(1, 9), (1, 1), (2, 2), (2, 1)] {
            let mut records = base.clone();
            records.push(record(kind, client, tx, None));
            assert_eq!(expected, summaries_after(records));
        }
    }
}

#[test]
fn a_locked_account_is_frozen_for_every_kind() {
    let units = |n: i64| Some(Amount::from_int(n));
    let base = vec![
        record(TransactionType::Deposit, 1, 1, units(10)),
        record(TransactionType::Deposit, 1, 2, units(5)),
        record(TransactionType::Deposit, 1, 3, units(2)),
        record(TransactionType::Dispute, 1, 2, None),
        record(TransactionType::Dispute, 1, 3, None),
        record(TransactionType::Chargeback, 1, 2, None),
    ];
    let expected = summaries_after(base.clone());
    assert_eq!(true, expected[0].locked());
    assert_eq!(Amount::from_int(12), expected[0].total());
    assert_eq!(Amount::from_int(2), expected[0].held());

    let later = vec![
        record(TransactionType::Deposit, 1, 4, units(50)),
        record(TransactionType::Withdrawal, 1, 5, units(1)),
        record(TransactionType::Dispute, 1, 1, None),
        record(TransactionType::Resolve, 1, 3, None),
        record(TransactionType::Chargeback, 1, 3, None),
    ];
    let mut processor = TransactionProcessor::new(InMemoryAccountStore::new());
    processor.process(base);
    let verdicts = processor.process(later);
    assert_eq!(
        vec![Err(Rejection::Store(StoreError::AccountLocked)); 5],
        verdicts
    );
    assert_eq!(expected, processor.export().unwrap());
}

#[test]
fn a_closed_case_cannot_be_reopened() {
    let units = |n: i64| Some(Amount::from_int(n));
    let mut processor = TransactionProcessor::new(InMemoryAccountStore::new());
    let verdicts = processor.process(vec![
        record(TransactionType::Deposit, 1, 1, units(10)),
        record(TransactionType::Dispute, 1, 1, None),
        record(TransactionType::Resolve, 1, 1, None),
        record(TransactionType::Dispute, 1, 1, None),
        record(TransactionType::Resolve, 1, 1, None),
        record(TransactionType::Chargeback, 1, 1, None),
    ]);
    assert_eq!(
        vec![
            Ok(()),
            Ok(()),
            Ok(()),
            Err(Rejection::CaseExists),
            Err(Rejection::CaseClosed),
            Err(Rejection::CaseClosed),
        ],
        verdicts
    );
    let summaries = processor.export().unwrap();
    assert_eq!(Amount::from_int(10), summaries[0].total());
    assert_eq!(Amount::from_int(0), summaries[0].held());
    assert_eq!(false, summaries[0].locked());
}
