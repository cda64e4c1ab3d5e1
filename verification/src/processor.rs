//! The processor: takes records one after the other, keeps the ledger of
//! deposits and dispute cases, and drives the account store.

use crate::account_summary::AccountSummary;
use crate::dispute::{DisputeCase, DisputeStatus};
use crate::ledger::{Ledger, Rejection};
use crate::store::{exports, Account, AccountStore};
use crate::transaction::{
    Chargeback, Deposit, Dispute, Resolve, Transaction, TransactionRecord, Withdrawal,
};
use std::collections::HashMap;
use vstd::prelude::*;

verus! {

broadcast use vstd::std_specs::hash::group_hash_axioms;

/// Processes transactions against an account store.
///
/// The processor owns the store, the deposits that can still be disputed and
/// the dispute cases. Its view is the [`Ledger`] made of the three.
pub struct TransactionProcessor<S: AccountStore> {
    store: S,
    deposits: HashMap<u32, Deposit>,
    disputes: HashMap<u32, DisputeCase>,
}

impl<S: AccountStore> View for TransactionProcessor<S> {
    type V = Ledger;

    closed spec fn view(&self) -> Ledger {
        Ledger {
            accounts: self.store.accounts(),
            deposits: self.deposits@,
            disputes: self.disputes@,
        }
    }
}

/// Whether `summaries` are the summaries of `accounts`, one for one.
pub open spec fn summarizes(accounts: Seq<Account>, summaries: Seq<AccountSummary>) -> bool {
    &&& accounts.len() == summaries.len()
    &&& forall|i: int|
        0 <= i < accounts.len() ==> AccountSummary::summarized(#[trigger] accounts[i]) == Some(
            summaries[i],
        )
}

impl<S: AccountStore> TransactionProcessor<S> {
    /// A processor over `store`, with no deposit recorded and no case open.
    pub fn new(store: S) -> (r: Self)
        ensures
            r@ == (Ledger {
                accounts: store.accounts(),
                deposits: Map::empty(),
                disputes: Map::empty(),
            }),
    {
        TransactionProcessor { store, deposits: HashMap::new(), disputes: HashMap::new() }
    }

    /// Processes the records in order and reports, for each, whether it took
    /// effect.
    pub fn process(&mut self, records: Vec<TransactionRecord>) -> (r: Vec<Result<(), Rejection>>)
        ensures
            final(self)@ == old(self)@.apply_records(records@),
            r@ == old(self)@.record_verdicts(records@),
    {
        let mut verdicts: Vec<Result<(), Rejection>> = Vec::new();
        let mut i: usize = 0;
        while i < records.len()
            invariant
                i <= records.len(),
                self@ == old(self)@.apply_records(records@.take(i as int)),
                verdicts@ == old(self)@.record_verdicts(records@.take(i as int)),
            decreases records.len() - i,
        {
            proof {
                assert(records@.take(i + 1).drop_last() =~= records@.take(i as int));
            }
            let verdict = self.process_record(records[i]);
            verdicts.push(verdict);
            i = i + 1;
        }
        proof {
            assert(records@.take(i as int) =~= records@);
        }
        verdicts
    }

    /// Validates one record and processes the transaction it stands for.
    pub fn process_record(&mut self, record: TransactionRecord) -> (r: Result<(), Rejection>)
        ensures
            final(self)@ == old(self)@.apply_record(record),
            r == old(self)@.record_verdict(record),
    {
        match record.validate() {
            Ok(transaction) => self.process_transaction(transaction),
            Err(e) => Err(Rejection::Malformed(e)),
        }
    }

    /// Processes one transaction.
    pub fn process_transaction(&mut self, transaction: Transaction) -> (r: Result<(), Rejection>)
        ensures
            final(self)@ == old(self)@.apply(transaction),
            r == old(self)@.verdict(transaction),
    {
        match transaction {
            Transaction::Deposit(tx) => self.process_deposit(tx),
            Transaction::Withdrawal(tx) => self.process_withdrawal(tx),
            Transaction::Dispute(tx) => self.process_dispute(tx),
            Transaction::Resolve(tx) => self.process_resolve(tx),
            Transaction::Chargeback(tx) => self.process_chargeback(tx),
        }
    }

    fn process_deposit(&mut self, deposit: Deposit) -> (r: Result<(), Rejection>)
        ensures
            final(self)@ == old(self)@.deposit(deposit),
            r == old(self)@.verdict(Transaction::Deposit(deposit)),
    {
        if let Err(e) = self.store.add_funds(deposit.client, deposit.amount) {
            return Err(Rejection::Store(e));
        }
        self.deposits.insert(deposit.tx.0, deposit);
        Ok(())
    }

    fn process_withdrawal(&mut self, withdrawal: Withdrawal) -> (r: Result<(), Rejection>)
        ensures
            final(self)@ == old(self)@.withdrawal(withdrawal),
            r == old(self)@.verdict(Transaction::Withdrawal(withdrawal)),
    {
        if let Err(e) = self.store.remove_funds(withdrawal.client, withdrawal.amount) {
            return Err(Rejection::Store(e));
        }
        Ok(())
    }

    fn process_dispute(&mut self, dispute: Dispute) -> (r: Result<(), Rejection>)
        ensures
            final(self)@ == old(self)@.dispute(dispute),
            r == old(self)@.verdict(Transaction::Dispute(dispute)),
    {
        let deposit = match self.deposits.get(&dispute.tx.0) {
            Some(deposit) => *deposit,
            None => {
                return Err(Rejection::NoSuchTransaction);
            },
        };
        if deposit.client != dispute.client {
            return Err(Rejection::ClientMismatch);
        }
        if self.disputes.contains_key(&dispute.tx.0) {
            return Err(Rejection::CaseExists);
        }
        if let Err(e) = self.store.hold_funds(dispute.client, deposit.amount) {
            return Err(Rejection::Store(e));
        }
        self.disputes.insert(dispute.tx.0, DisputeCase::new(dispute, deposit.amount));
        Ok(())
    }

    fn process_resolve(&mut self, resolve: Resolve) -> (r: Result<(), Rejection>)
        ensures
            final(self)@ == old(self)@.resolve(resolve),
            r == old(self)@.verdict(Transaction::Resolve(resolve)),
    {
        let mut case = match self.disputes.get(&resolve.tx.0) {
            Some(case) => *case,
            None => {
                return Err(Rejection::NoSuchCase);
            },
        };
        if case.client != resolve.client {
            return Err(Rejection::ClientMismatch);
        }
        if !case.is_open() {
            return Err(Rejection::CaseClosed);
        }
        if let Err(e) = self.store.release_funds(resolve.client, case.amount) {
            return Err(Rejection::Store(e));
        }
        case.close(DisputeStatus::Resolved);
        self.disputes.insert(resolve.tx.0, case);
        Ok(())
    }

    fn process_chargeback(&mut self, chargeback: Chargeback) -> (r: Result<(), Rejection>)
        ensures
            final(self)@ == old(self)@.chargeback(chargeback),
            r == old(self)@.verdict(Transaction::Chargeback(chargeback)),
    {
        let mut case = match self.disputes.get(&chargeback.tx.0) {
            Some(case) => *case,
            None => {
                return Err(Rejection::NoSuchCase);
            },
        };
        if case.client != chargeback.client {
            return Err(Rejection::ClientMismatch);
        }
        if !case.is_open() {
            return Err(Rejection::CaseClosed);
        }
        if let Err(e) = self.store.release_and_debit(chargeback.client, case.amount) {
            return Err(Rejection::Store(e));
        }
        case.close(DisputeStatus::Chargebacked);
        self.disputes.insert(chargeback.tx.0, case);
        Ok(())
    }

    /// Hands out the summary of every account, each once and in no
    /// particular order, consuming the processor. `None` where the available
    /// balance of some account cannot be represented.
    pub fn export(self) -> (r: Option<Vec<AccountSummary>>)
        ensures
            match r {
                Some(summaries) => {
                    &&& exists|accounts: Seq<Account>|
                        exports(self@.accounts, accounts) && #[trigger] summarizes(
                            accounts,
                            summaries@,
                        )
                    &&& forall|i: int|
                        0 <= i < summaries.len() ==> Some((#[trigger] summaries[i]).spec_available())
                            == summaries[i].spec_total().difference(summaries[i].spec_held())
                },
                None => exists|client: u16|
                    #[trigger] self@.accounts.contains_key(client)
                        && self@.accounts[client].available() is None,
            },
    {
        let accounts = self.store.export();
        let mut summaries: Vec<AccountSummary> = Vec::new();
        let mut i: usize = 0;
        while i < accounts.len()
            invariant
                i <= accounts.len(),
                exports(self@.accounts, accounts@),
                summarizes(accounts@.take(i as int), summaries@),
                forall|j: int|
                    0 <= j < summaries.len() ==> Some((#[trigger] summaries[j]).spec_available())
                        == summaries[j].spec_total().difference(summaries[j].spec_held()),
            decreases accounts.len() - i,
        {
            proof {
                AccountSummary::lemma_of(
                    accounts[i as int].client,
                    accounts[i as int].held,
                    accounts[i as int].total,
                    accounts[i as int].locked,
                );
            }
            match AccountSummary::from_account(&accounts[i]) {
                Some(summary) => {
                    summaries.push(summary);
                },
                None => {
                    proof {
                        let clients = choose|clients: Seq<u16>|
                            {
                                &&& clients.no_duplicates()
                                &&& clients.to_set() == self@.accounts.dom()
                                &&& #[trigger] clients.len() == accounts@.len()
                                &&& forall|k: int|
                                    0 <= k < clients.len() ==> accounts@[k]
                                        == self@.accounts[#[trigger] clients[k]]
                            };
                        assert(self@.accounts.contains_key(clients[i as int]));
                    }
                    return None;
                },
            }
            i = i + 1;
        }
        Some(summaries)
    }
}

} // verus!
