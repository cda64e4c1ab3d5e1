//! The state of a processor as a mathematical value, and what each
//! transaction does to it.

use crate::client::ClientId;
use crate::dispute::{DisputeCase, DisputeStatus};
use crate::store::{account_of, settled, Account, StoreError};
use crate::transaction::{
    Chargeback, Deposit, Dispute, Resolve, Transaction, TransactionId, TransactionRecord,
    ValidationError, Withdrawal,
};
use vstd::prelude::*;

verus! {

/// Why a record left the state as it was, or changed no balance.
#[derive(Debug, Clone, Copy, PartialEq, Eq, Structural)]
pub enum Rejection {
    /// The record is not a transaction.
    Malformed(ValidationError),
    /// The store refused the operation.
    Store(StoreError),
    /// A dispute names a transaction that is no recorded deposit.
    NoSuchTransaction,
    /// A dispute, resolve or chargeback names another client than the deposit
    /// or the case does.
    ClientMismatch,
    /// A dispute names a deposit that already has a case, open or closed.
    CaseExists,
    /// A resolve or chargeback names a transaction without a case.
    NoSuchCase,
    /// A resolve or chargeback names a case that is closed.
    CaseClosed,
}

/// Accounts by client number, recorded deposits and dispute cases by
/// transaction number.
pub struct Ledger {
    pub accounts: Map<u16, Account>,
    pub deposits: Map<u32, Deposit>,
    pub disputes: Map<u32, DisputeCase>,
}

/// The verdict on a transaction whose store operation came to `outcome`.
pub open spec fn verdict_of(outcome: Result<Account, StoreError>) -> Result<(), Rejection> {
    match outcome {
        Ok(_) => Ok(()),
        Err(e) => Err(Rejection::Store(e)),
    }
}

impl Rejection {
    /// What the message says.
    pub open spec fn text(self) -> Seq<char> {
        match self {
            Rejection::Malformed(e) => e.text(),
            Rejection::Store(e) => e.text(),
            Rejection::NoSuchTransaction => "No such transaction found"@,
            Rejection::ClientMismatch => "Client ID does not match"@,
            Rejection::CaseExists => "A case already exists"@,
            Rejection::NoSuchCase => "No such case found"@,
            Rejection::CaseClosed => "The case is closed"@,
        }
    }

    /// A few words on the rejection, for a log.
    pub fn message(&self) -> (r: &'static str)
        ensures
            r@ == self.text(),
    {
        match self {
            Rejection::Malformed(e) => e.message(),
            Rejection::Store(e) => e.message(),
            Rejection::NoSuchTransaction => "No such transaction found",
            Rejection::ClientMismatch => "Client ID does not match",
            Rejection::CaseExists => "A case already exists",
            Rejection::NoSuchCase => "No such case found",
            Rejection::CaseClosed => "The case is closed",
        }
    }
}

impl Ledger {
    /// No accounts, no deposits, no cases.
    pub open spec fn empty() -> Ledger {
        Ledger { accounts: Map::empty(), deposits: Map::empty(), disputes: Map::empty() }
    }

    /// Whether every account, deposit and case sits under its own number, and
    /// every case is on a recorded deposit.
    pub open spec fn consistent(self) -> bool {
        &&& forall|c: u16|
            self.accounts.contains_key(c) ==> (#[trigger] self.accounts[c]).client.0 == c
        &&& forall|t: u32|
            self.deposits.contains_key(t) ==> (#[trigger] self.deposits[t]).tx.0 == t
        &&& forall|t: u32|
            self.disputes.contains_key(t) ==> (#[trigger] self.disputes[t]).tx.0 == t
                && self.deposits.contains_key(t)
    }

    /// The account of `client`, empty where the client has none yet.
    pub open spec fn account(self, client: ClientId) -> Account {
        account_of(self.accounts, client)
    }

    /// Whether `client` has a locked account.
    pub open spec fn locked(self, client: ClientId) -> bool {
        self.account(client).locked
    }

    /// The ledger with the account of `client` settled to `outcome`.
    pub open spec fn settle(self, client: ClientId, outcome: Result<Account, StoreError>) -> Ledger {
        Ledger {
            accounts: settled(self.accounts, client, outcome),
            deposits: self.deposits,
            disputes: self.disputes,
        }
    }

    /// A deposit credits the account and, where that succeeds, is recorded.
    pub open spec fn deposit(self, d: Deposit) -> Ledger {
        let outcome = self.account(d.client).credited(d.amount);
        Ledger {
            accounts: settled(self.accounts, d.client, outcome),
            deposits: if outcome is Ok {
                self.deposits.insert(d.tx.0, d)
            } else {
                self.deposits
            },
            disputes: self.disputes,
        }
    }

    /// A withdrawal debits the account and is never recorded.
    pub open spec fn withdrawal(self, w: Withdrawal) -> Ledger {
        self.settle(w.client, self.account(w.client).debited(w.amount))
    }

    /// Why a dispute is not taken up, before the store is asked.
    pub open spec fn dispute_guard(self, d: Dispute) -> Option<Rejection> {
        if !self.deposits.contains_key(d.tx.0) {
            Some(Rejection::NoSuchTransaction)
        } else if self.deposits[d.tx.0].client != d.client {
            Some(Rejection::ClientMismatch)
        } else if self.disputes.contains_key(d.tx.0) {
            Some(Rejection::CaseExists)
        } else {
            None
        }
    }

    /// A dispute that passes the guard holds the deposit's amount and, where
    /// that succeeds, opens a case.
    pub open spec fn dispute(self, d: Dispute) -> Ledger {
        if self.dispute_guard(d) is Some {
            self
        } else {
            let amount = self.deposits[d.tx.0].amount;
            let outcome = self.account(d.client).holding(amount);
            Ledger {
                accounts: settled(self.accounts, d.client, outcome),
                deposits: self.deposits,
                disputes: if outcome is Ok {
                    self.disputes.insert(d.tx.0, DisputeCase::opened(d, amount))
                } else {
                    self.disputes
                },
            }
        }
    }

    /// Why a resolve or chargeback by `client` on `tx` is not taken up, before
    /// the store is asked.
    pub open spec fn case_guard(self, client: ClientId, tx: TransactionId) -> Option<Rejection> {
        if !self.disputes.contains_key(tx.0) {
            Some(Rejection::NoSuchCase)
        } else if self.disputes[tx.0].client != client {
            Some(Rejection::ClientMismatch)
        } else if !(self.disputes[tx.0].status is Open) {
            Some(Rejection::CaseClosed)
        } else {
            None
        }
    }

    /// The ledger after the open case on `tx` was acted on with `outcome` at
    /// the store: closed as `status` where that succeeded.
    pub open spec fn close_case(
        self,
        client: ClientId,
        tx: TransactionId,
        outcome: Result<Account, StoreError>,
        status: DisputeStatus,
    ) -> Ledger {
        Ledger {
            accounts: settled(self.accounts, client, outcome),
            deposits: self.deposits,
            disputes: if outcome is Ok {
                self.disputes.insert(tx.0, self.disputes[tx.0].closed(status))
            } else {
                self.disputes
            },
        }
    }

    /// A resolve that passes the guard releases the case's amount and, where
    /// that succeeds, closes the case as resolved.
    pub open spec fn resolve(self, r: Resolve) -> Ledger {
        if self.case_guard(r.client, r.tx) is Some {
            self
        } else {
            self.close_case(
                r.client,
                r.tx,
                self.account(r.client).releasing(self.disputes[r.tx.0].amount),
                DisputeStatus::Resolved,
            )
        }
    }

    /// A chargeback that passes the guard takes the case's amount out of the
    /// account, which locks it, and closes the case as charged back.
    pub open spec fn chargeback(self, c: Chargeback) -> Ledger {
        if self.case_guard(c.client, c.tx) is Some {
            self
        } else {
            self.close_case(
                c.client,
                c.tx,
                self.account(c.client).charged_back(self.disputes[c.tx.0].amount),
                DisputeStatus::Chargebacked,
            )
        }
    }

    /// The ledger after one transaction.
    pub open spec fn apply(self, t: Transaction) -> Ledger {
        match t {
            Transaction::Deposit(d) => self.deposit(d),
            Transaction::Withdrawal(w) => self.withdrawal(w),
            Transaction::Dispute(d) => self.dispute(d),
            Transaction::Resolve(r) => self.resolve(r),
            Transaction::Chargeback(c) => self.chargeback(c),
        }
    }

    /// Whether one transaction takes effect, and why not.
    pub open spec fn verdict(self, t: Transaction) -> Result<(), Rejection> {
        match t {
            Transaction::Deposit(d) => verdict_of(self.account(d.client).credited(d.amount)),
            Transaction::Withdrawal(w) => verdict_of(self.account(w.client).debited(w.amount)),
            Transaction::Dispute(d) => match self.dispute_guard(d) {
                Some(rejection) => Err(rejection),
                None => verdict_of(
                    self.account(d.client).holding(self.deposits[d.tx.0].amount),
                ),
            },
            Transaction::Resolve(r) => match self.case_guard(r.client, r.tx) {
                Some(rejection) => Err(rejection),
                None => verdict_of(
                    self.account(r.client).releasing(self.disputes[r.tx.0].amount),
                ),
            },
            Transaction::Chargeback(c) => match self.case_guard(c.client, c.tx) {
                Some(rejection) => Err(rejection),
                None => verdict_of(
                    self.account(c.client).charged_back(self.disputes[c.tx.0].amount),
                ),
            },
        }
    }

    /// The ledger after one record: a malformed record changes nothing.
    pub open spec fn apply_record(self, record: TransactionRecord) -> Ledger {
        match record.validated() {
            Ok(t) => self.apply(t),
            Err(_) => self,
        }
    }

    /// Whether one record takes effect, and why not.
    pub open spec fn record_verdict(self, record: TransactionRecord) -> Result<(), Rejection> {
        match record.validated() {
            Ok(t) => self.verdict(t),
            Err(e) => Err(Rejection::Malformed(e)),
        }
    }

    /// The ledger after the transactions of `ts`, first to last.
    pub open spec fn apply_all(self, ts: Seq<Transaction>) -> Ledger
        decreases ts.len(),
    {
        if ts.len() == 0 {
            self
        } else {
            self.apply_all(ts.drop_last()).apply(ts.last())
        }
    }

    /// The ledger after the records of `records`, first to last.
    pub open spec fn apply_records(self, records: Seq<TransactionRecord>) -> Ledger
        decreases records.len(),
    {
        if records.len() == 0 {
            self
        } else {
            self.apply_records(records.drop_last()).apply_record(records.last())
        }
    }

    /// The transactions that the records of `records` stand for, in their
    /// order, without the malformed records.
    pub open spec fn accepted(records: Seq<TransactionRecord>) -> Seq<Transaction>
        decreases records.len(),
    {
        if records.len() == 0 {
            Seq::empty()
        } else {
            match records.last().validated() {
                Ok(t) => Ledger::accepted(records.drop_last()).push(t),
                Err(_) => Ledger::accepted(records.drop_last()),
            }
        }
    }

    /// The verdicts on the records of `records`, each given in the state that
    /// the records before it left.
    pub open spec fn record_verdicts(self, records: Seq<TransactionRecord>) -> Seq<
        Result<(), Rejection>,
    >
        decreases records.len(),
    {
        if records.len() == 0 {
            Seq::empty()
        } else {
            self.record_verdicts(records.drop_last()).push(
                self.apply_records(records.drop_last()).record_verdict(records.last()),
            )
        }
    }
}

} // verus!
