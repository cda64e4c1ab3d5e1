//! Dispute cases and their life cycle: open, then resolved or charged back.

use crate::amount::Amount;
use crate::client::ClientId;
use crate::transaction::{Dispute, TransactionId};
use vstd::prelude::*;

verus! {

/// Where a dispute case stands. `Resolved` and `Chargebacked` are final.
#[derive(Debug, Clone, Copy, PartialEq, Eq, Structural)]
pub enum DisputeStatus {
    Open,
    Resolved,
    Chargebacked,
}

/// The case opened against one deposit.
#[derive(Debug, Clone, Copy, PartialEq, Eq, Structural)]
pub struct DisputeCase {
    pub tx: TransactionId,
    pub client: ClientId,
    pub amount: Amount,
    pub status: DisputeStatus,
}

impl DisputeCase {
    /// The open case that `detail` starts over a deposit of `amount`.
    pub open spec fn opened(detail: Dispute, amount: Amount) -> DisputeCase {
        DisputeCase { tx: detail.tx, client: detail.client, amount, status: DisputeStatus::Open }
    }

    /// The case once closed as `status`. A case that is not open stays as it
    /// is, and closing as `Open` changes nothing.
    pub open spec fn closed(self, status: DisputeStatus) -> DisputeCase {
        if self.status is Open {
            DisputeCase { tx: self.tx, client: self.client, amount: self.amount, status }
        } else {
            self
        }
    }

    /// Opens a case.
    pub fn new(detail: Dispute, amount: Amount) -> (r: DisputeCase)
        ensures
            r == DisputeCase::opened(detail, amount),
    {
        DisputeCase { tx: detail.tx, client: detail.client, amount, status: DisputeStatus::Open }
    }

    /// Whether the case is open.
    pub fn is_open(&self) -> (r: bool)
        ensures
            r == (self.status is Open),
    {
        match self.status {
            DisputeStatus::Open => true,
            _ => false,
        }
    }

    /// Closes an open case as `status`; a closed case is left as it is.
    pub fn close(&mut self, status: DisputeStatus)
        ensures
            *final(self) == old(self).closed(status),
    {
        if self.is_open() {
            self.status = status;
        }
    }
}

} // verus!
