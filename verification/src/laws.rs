//! What holds of the ledger whatever the records are.

use crate::amount::Amount;
use crate::client::ClientId;
use crate::dispute::DisputeCase;
use crate::ledger::{Ledger, Rejection};
use crate::store::Account;
use crate::transaction::{
    Chargeback, Deposit, Dispute, Resolve, Transaction, TransactionRecord, Withdrawal,
};
use vstd::prelude::*;

verus! {

/// The total of `client` after one more deposit or withdrawal: a deposit of
/// the client's adds its amount unless the sum overflows; a withdrawal of the
/// client's takes its amount unless that is more than `total` less nothing
/// held, or the difference overflows; anything else leaves the total.
pub open spec fn total_after(total: Amount, t: Transaction, client: ClientId) -> Amount {
    match t {
        Transaction::Deposit(d) => if d.client == client {
            match total.sum(d.amount) {
                Some(sum) => sum,
                None => total,
            }
        } else {
            total
        },
        Transaction::Withdrawal(w) => if w.client == client {
            match (total.difference(Amount::spec_zero()), total.difference(w.amount)) {
                (Some(available), Some(rest)) => if available.less_than(w.amount) {
                    total
                } else {
                    rest
                },
                _ => total,
            }
        } else {
            total
        },
        _ => total,
    }
}

/// The deposits of `client` in `ts` that were applied, less the withdrawals
/// that were, summed in the decimal arithmetic in the order of `ts`, starting
/// from zero.
pub open spec fn net_total(ts: Seq<Transaction>, client: ClientId) -> Amount
    decreases ts.len(),
{
    if ts.len() == 0 {
        Amount::spec_zero()
    } else {
        total_after(net_total(ts.drop_last(), client), ts.last(), client)
    }
}

/// Whether `ts` holds deposits and withdrawals only.
pub open spec fn only_funds(ts: Seq<Transaction>) -> bool {
    forall|i: int| 0 <= i < ts.len() ==> (#[trigger] ts[i] is Deposit) || ts[i] is Withdrawal
}

/// After any sequence of deposits and withdrawals on an empty ledger, the
/// total of every client is the sum of its applied deposits less its applied
/// withdrawals, nothing is held, no account is locked and no case exists.
pub proof fn lemma_total_is_net_of_funds(ts: Seq<Transaction>, client: ClientId)
    requires
        only_funds(ts),
    ensures
        Ledger::empty().apply_all(ts).account(client) == (Account {
            client,
            held: Amount::spec_zero(),
            total: net_total(ts, client),
            locked: false,
        }),
        Ledger::empty().apply_all(ts).disputes == Map::<u32, DisputeCase>::empty(),
    decreases ts.len(),
{
    if ts.len() > 0 {
        lemma_total_is_net_of_funds(ts.drop_last(), client);
    }
}

/// A dispute changes nothing unless it names a recorded deposit of the same
/// client that has no case yet.
pub proof fn lemma_dispute_without_ground_is_noop(ledger: Ledger, d: Dispute)
    requires
        !(ledger.deposits.contains_key(d.tx.0) && ledger.deposits[d.tx.0].client == d.client
            && !ledger.disputes.contains_key(d.tx.0)),
    ensures
        ledger.apply(Transaction::Dispute(d)) == ledger,
        ledger.verdict(Transaction::Dispute(d)) is Err,
{
}

/// A resolve changes nothing unless it names an open case of the same client.
pub proof fn lemma_resolve_without_open_case_is_noop(ledger: Ledger, r: Resolve)
    requires
        !(ledger.disputes.contains_key(r.tx.0) && ledger.disputes[r.tx.0].client == r.client
            && ledger.disputes[r.tx.0].status is Open),
    ensures
        ledger.apply(Transaction::Resolve(r)) == ledger,
        ledger.verdict(Transaction::Resolve(r)) is Err,
{
}

/// A chargeback changes nothing unless it names an open case of the same
/// client.
pub proof fn lemma_chargeback_without_open_case_is_noop(ledger: Ledger, c: Chargeback)
    requires
        !(ledger.disputes.contains_key(c.tx.0) && ledger.disputes[c.tx.0].client == c.client
            && ledger.disputes[c.tx.0].status is Open),
    ensures
        ledger.apply(Transaction::Chargeback(c)) == ledger,
        ledger.verdict(Transaction::Chargeback(c)) is Err,
{
}

/// A case that is closed is never changed again, whatever comes.
pub proof fn lemma_closed_case_is_final(ledger: Ledger, tx: u32, t: Transaction)
    requires
        ledger.disputes.contains_key(tx),
        !(ledger.disputes[tx].status is Open),
    ensures
        ledger.apply(t).disputes.contains_key(tx),
        ledger.apply(t).disputes[tx] == ledger.disputes[tx],
{
}

/// A chargeback that takes effect locks the client's account and closes the
/// case as charged back.
pub proof fn lemma_chargeback_locks(ledger: Ledger, c: Chargeback)
    requires
        ledger.verdict(Transaction::Chargeback(c)) is Ok,
    ensures
        ledger.apply(Transaction::Chargeback(c)).locked(c.client),
        ledger.apply(Transaction::Chargeback(c)).disputes[c.tx.0].status is Chargebacked,
{
}

/// No transaction takes effect on a locked account: one that names its client
/// is rejected with `AccountLocked` or earlier, and leaves the whole ledger as
/// it was.
pub proof fn lemma_locked_client_is_frozen(ledger: Ledger, t: Transaction)
    requires
        ledger.locked(t.client()),
    ensures
        ledger.apply(t) == ledger,
        ledger.verdict(t) is Err,
{
    assert(ledger.apply(t).accounts =~= ledger.accounts);
}

/// A transaction changes no account but that of the client it names.
pub proof fn lemma_other_accounts_untouched(ledger: Ledger, t: Transaction, client: ClientId)
    requires
        t.client() != client,
    ensures
        ledger.apply(t).account(client) == ledger.account(client),
{
}

/// A locked account stays locked, and as it is, through any transactions.
pub proof fn lemma_locked_forever(ledger: Ledger, ts: Seq<Transaction>, client: ClientId)
    requires
        ledger.locked(client),
    ensures
        ledger.apply_all(ts).locked(client),
        ledger.apply_all(ts).account(client) == ledger.account(client),
    decreases ts.len(),
{
    if ts.len() > 0 {
        lemma_locked_forever(ledger, ts.drop_last(), client);
        let before = ledger.apply_all(ts.drop_last());
        if ts.last().client() == client {
            lemma_locked_client_is_frozen(before, ts.last());
        } else {
            lemma_other_accounts_untouched(before, ts.last(), client);
        }
    }
}

/// A locked account stays locked, and as it is, through any records.
pub proof fn lemma_locked_through_records(
    ledger: Ledger,
    records: Seq<TransactionRecord>,
    client: ClientId,
)
    requires
        ledger.locked(client),
    ensures
        ledger.apply_records(records).locked(client),
        ledger.apply_records(records).account(client) == ledger.account(client),
{
    lemma_records_are_their_transactions(ledger, records);
    lemma_locked_forever(ledger, Ledger::accepted(records), client);
}

/// A rejected transaction changes no balance, no deposit and no case: at most
/// it gives the client it names an empty account.
pub proof fn lemma_rejected_changes_no_balance(ledger: Ledger, t: Transaction, client: ClientId)
    requires
        ledger.verdict(t) is Err,
    ensures
        ledger.apply(t).account(client) == ledger.account(client),
        ledger.apply(t).deposits == ledger.deposits,
        ledger.apply(t).disputes == ledger.disputes,
        !(ledger.verdict(t) matches Err(Rejection::Store(_))) ==> ledger.apply(t) == ledger,
{
}

/// A deposit on an account that is not locked takes effect unless the new
/// total cannot be represented; it is then recorded under its number.
pub proof fn lemma_deposit_takes_effect(ledger: Ledger, d: Deposit)
    requires
        !ledger.locked(d.client),
        ledger.account(d.client).total.sum(d.amount) is Some,
    ensures
        ledger.verdict(Transaction::Deposit(d)) is Ok,
        Some(ledger.apply(Transaction::Deposit(d)).account(d.client).total) == ledger.account(
            d.client,
        ).total.sum(d.amount),
        ledger.apply(Transaction::Deposit(d)).account(d.client).held == ledger.account(
            d.client,
        ).held,
        ledger.apply(Transaction::Deposit(d)).deposits[d.tx.0] == d,
{
}

/// A withdrawal is never recorded, so it can never be disputed; it leaves
/// the held funds, the deposits and the cases as they are.
pub proof fn lemma_withdrawal_leaves_no_record(ledger: Ledger, w: Withdrawal)
    ensures
        ledger.apply(Transaction::Withdrawal(w)).deposits == ledger.deposits,
        ledger.apply(Transaction::Withdrawal(w)).disputes == ledger.disputes,
        ledger.apply(Transaction::Withdrawal(w)).account(w.client).held == ledger.account(
            w.client,
        ).held,
{
}

/// No account, deposit or case is ever removed.
pub proof fn lemma_nothing_is_removed(ledger: Ledger, t: Transaction)
    ensures
        ledger.accounts.dom().subset_of(ledger.apply(t).accounts.dom()),
        ledger.deposits.dom().subset_of(ledger.apply(t).deposits.dom()),
        ledger.disputes.dom().subset_of(ledger.apply(t).disputes.dom()),
{
}

/// A transaction keeps a consistent ledger consistent.
pub proof fn lemma_apply_keeps_consistent(ledger: Ledger, t: Transaction)
    requires
        ledger.consistent(),
    ensures
        ledger.apply(t).consistent(),
{
}

/// Every ledger that transactions lead to from the empty one is consistent.
pub proof fn lemma_reachable_is_consistent(ts: Seq<Transaction>)
    ensures
        Ledger::empty().apply_all(ts).consistent(),
    decreases ts.len(),
{
    if ts.len() > 0 {
        lemma_reachable_is_consistent(ts.drop_last());
        lemma_apply_keeps_consistent(Ledger::empty().apply_all(ts.drop_last()), ts.last());
    }
}

/// Records do what the transactions they stand for do: the malformed ones
/// among them do nothing.
pub proof fn lemma_records_are_their_transactions(ledger: Ledger, records: Seq<TransactionRecord>)
    ensures
        ledger.apply_records(records) == ledger.apply_all(Ledger::accepted(records)),
    decreases records.len(),
{
    if records.len() > 0 {
        lemma_records_are_their_transactions(ledger, records.drop_last());
        match records.last().validated() {
            Ok(t) => {
                let before = Ledger::accepted(records.drop_last());
                assert(before.push(t).drop_last() =~= before);
            },
            Err(_) => {},
        }
    }
}

/// Whether `records` holds deposits and withdrawals only.
pub open spec fn only_fund_records(records: Seq<TransactionRecord>) -> bool {
    forall|i: int|
        0 <= i < records.len() ==> (#[trigger] records[i]).transaction_type.has_amount()
}

/// After any records of deposits and withdrawals on an empty ledger, the total
/// of every client is the sum of its applied deposits less its applied
/// withdrawals, and nothing is held or locked.
pub proof fn lemma_total_is_net_of_fund_records(records: Seq<TransactionRecord>, client: ClientId)
    requires
        only_fund_records(records),
    ensures
        Ledger::empty().apply_records(records).account(client) == (Account {
            client,
            held: Amount::spec_zero(),
            total: net_total(Ledger::accepted(records), client),
            locked: false,
        }),
{
    lemma_records_are_their_transactions(Ledger::empty(), records);
    lemma_accepted_fund_records(records);
    lemma_total_is_net_of_funds(Ledger::accepted(records), client);
}

/// What records of deposits and withdrawals stand for are deposits and
/// withdrawals.
proof fn lemma_accepted_fund_records(records: Seq<TransactionRecord>)
    requires
        only_fund_records(records),
    ensures
        only_funds(Ledger::accepted(records)),
    decreases records.len(),
{
    if records.len() > 0 {
        lemma_accepted_fund_records(records.drop_last());
    }
}

} // verus!
