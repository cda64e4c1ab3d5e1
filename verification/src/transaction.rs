//! Transaction records as they are read, the typed transactions they stand
//! for, and the validation that leads from one to the other.

use crate::amount::Amount;
use crate::client::ClientId;
use vstd::prelude::*;
use vstd::std_specs::convert::FromSpecImpl;
use vstd::string::StringExecFns;

verus! {

/// Identifies a deposit or a withdrawal; disputes refer to a deposit by it.
#[derive(Debug, Clone, Copy, PartialEq, Eq, Hash, Structural)]
pub struct TransactionId(pub u32);

/// The kind that a record announces.
#[derive(Debug, Clone, Copy, PartialEq, Eq, Structural)]
pub enum TransactionType {
    Deposit,
    Withdrawal,
    Dispute,
    Resolve,
    Chargeback,
}

/// A record as decoded from the input, before validation.
#[derive(Debug, Clone, Copy, PartialEq, Eq, Structural)]
pub struct TransactionRecord {
    pub transaction_type: TransactionType,
    pub client: ClientId,
    pub tx: TransactionId,
    pub amount: Option<Amount>,
}

/// Credits `amount` to `client`.
#[derive(Debug, Clone, Copy, PartialEq, Eq, Structural)]
pub struct Deposit {
    pub client: ClientId,
    pub tx: TransactionId,
    pub amount: Amount,
}

/// Debits `amount` from `client`.
#[derive(Debug, Clone, Copy, PartialEq, Eq, Structural)]
pub struct Withdrawal {
    pub client: ClientId,
    pub tx: TransactionId,
    pub amount: Amount,
}

/// Opens a case against the deposit `tx`.
#[derive(Debug, Clone, Copy, PartialEq, Eq, Structural)]
pub struct Dispute {
    pub client: ClientId,
    pub tx: TransactionId,
}

/// Closes the case on `tx` in the client's favour of keeping the funds.
#[derive(Debug, Clone, Copy, PartialEq, Eq, Structural)]
pub struct Resolve {
    pub client: ClientId,
    pub tx: TransactionId,
}

/// Closes the case on `tx` by reversing the deposit.
#[derive(Debug, Clone, Copy, PartialEq, Eq, Structural)]
pub struct Chargeback {
    pub client: ClientId,
    pub tx: TransactionId,
}

/// A validated transaction: each kind carries exactly the fields it uses.
#[derive(Debug, Clone, Copy, PartialEq, Eq, Structural)]
pub enum Transaction {
    Deposit(Deposit),
    Withdrawal(Withdrawal),
    Dispute(Dispute),
    Resolve(Resolve),
    Chargeback(Chargeback),
}

/// Why a record is not a transaction.
#[derive(Debug, Clone, Copy, PartialEq, Eq, Structural)]
pub enum ValidationError {
    /// A dispute, resolve or chargeback carries an amount.
    UnexpectedAmount,
    /// The amount is zero or negative.
    NonPositiveAmount,
    /// A deposit or withdrawal carries no amount.
    MissingAmount,
}

impl ValidationError {
    /// What the message says.
    pub open spec fn text(self) -> Seq<char> {
        match self {
            ValidationError::UnexpectedAmount => "Unexpected amount field"@,
            ValidationError::NonPositiveAmount => "Expected positive amount"@,
            ValidationError::MissingAmount => "Expected amount"@,
        }
    }

    /// A few words on the error, for a log.
    pub fn message(&self) -> (r: &'static str)
        ensures
            r@ == self.text(),
    {
        match self {
            ValidationError::UnexpectedAmount => "Unexpected amount field",
            ValidationError::NonPositiveAmount => "Expected positive amount",
            ValidationError::MissingAmount => "Expected amount",
        }
    }
}

impl TransactionType {
    /// Whether records of this kind carry an amount.
    pub open spec fn has_amount(self) -> bool {
        self is Deposit || self is Withdrawal
    }

    /// The word that stands for the kind in a record.
    pub open spec fn spec_name(self) -> Seq<char> {
        match self {
            TransactionType::Deposit => "deposit"@,
            TransactionType::Withdrawal => "withdrawal"@,
            TransactionType::Dispute => "dispute"@,
            TransactionType::Resolve => "resolve"@,
            TransactionType::Chargeback => "chargeback"@,
        }
    }

    /// The kind that `name` stands for: `name` is one of the five words,
    /// letter for letter.
    pub open spec fn named(name: Seq<char>) -> Option<TransactionType> {
        if name == "deposit"@ {
            Some(TransactionType::Deposit)
        } else if name == "withdrawal"@ {
            Some(TransactionType::Withdrawal)
        } else if name == "dispute"@ {
            Some(TransactionType::Dispute)
        } else if name == "resolve"@ {
            Some(TransactionType::Resolve)
        } else if name == "chargeback"@ {
            Some(TransactionType::Chargeback)
        } else {
            None
        }
    }

    /// Each kind is the kind that its own word stands for.
    pub proof fn lemma_named_name(self)
        ensures
            TransactionType::named(self.spec_name()) == Some(self),
    {
        reveal_strlit("deposit");
        reveal_strlit("withdrawal");
        reveal_strlit("dispute");
        reveal_strlit("resolve");
        reveal_strlit("chargeback");
        assert("withdrawal"@[0] == 'w');
        assert("deposit"@[1] == 'e');
        assert("dispute"@[1] == 'i');
        assert("resolve"@[0] == 'r');
    }

    /// The word that stands for the kind in a record.
    pub fn name(self) -> (r: &'static str)
        ensures
            r@ == self.spec_name(),
    {
        match self {
            TransactionType::Deposit => "deposit",
            TransactionType::Withdrawal => "withdrawal",
            TransactionType::Dispute => "dispute",
            TransactionType::Resolve => "resolve",
            TransactionType::Chargeback => "chargeback",
        }
    }

    /// The kind that `name` stands for, `None` where it is none of the five
    /// words.
    pub fn from_name(name: &str) -> (r: Option<TransactionType>)
        ensures
            r == TransactionType::named(name@),
    {
        let name = String::from_str(name);
        if name == String::from_str("deposit") {
            Some(TransactionType::Deposit)
        } else if name == String::from_str("withdrawal") {
            Some(TransactionType::Withdrawal)
        } else if name == String::from_str("dispute") {
            Some(TransactionType::Dispute)
        } else if name == String::from_str("resolve") {
            Some(TransactionType::Resolve)
        } else if name == String::from_str("chargeback") {
            Some(TransactionType::Chargeback)
        } else {
            None
        }
    }
}

impl TransactionRecord {
    /// A record of the given fields.
    pub fn new(
        transaction_type: TransactionType,
        client: ClientId,
        tx: TransactionId,
        amount: Option<Amount>,
    ) -> (r: TransactionRecord)
        ensures
            r == (TransactionRecord { transaction_type, client, tx, amount }),
    {
        TransactionRecord { transaction_type, client, tx, amount }
    }

    /// The transaction that this record stands for, or the first rule it
    /// breaks: an amount where none belongs, then an amount that is not
    /// positive, then a missing amount.
    pub open spec fn validated(self) -> Result<Transaction, ValidationError> {
        let client = self.client;
        let tx = self.tx;
        match self.amount {
            Some(amount) => {
                if !self.transaction_type.has_amount() {
                    Err(ValidationError::UnexpectedAmount)
                } else if !amount.is_positive() {
                    Err(ValidationError::NonPositiveAmount)
                } else if self.transaction_type is Deposit {
                    Ok(Transaction::Deposit(Deposit { client, tx, amount }))
                } else {
                    Ok(Transaction::Withdrawal(Withdrawal { client, tx, amount }))
                }
            },
            None => match self.transaction_type {
                TransactionType::Deposit | TransactionType::Withdrawal => Err(
                    ValidationError::MissingAmount,
                ),
                TransactionType::Dispute => Ok(Transaction::Dispute(Dispute { client, tx })),
                TransactionType::Resolve => Ok(Transaction::Resolve(Resolve { client, tx })),
                TransactionType::Chargeback => Ok(
                    Transaction::Chargeback(Chargeback { client, tx }),
                ),
            },
        }
    }

    /// Validates the record.
    pub fn validate(self) -> (r: Result<Transaction, ValidationError>)
        ensures
            r == self.validated(),
    {
        if let Some(amount) = self.amount {
            match self.transaction_type {
                TransactionType::Dispute
                | TransactionType::Resolve
                | TransactionType::Chargeback => {
                    return Err(ValidationError::UnexpectedAmount);
                },
                _ => {},
            }
            if !amount.positive() {
                return Err(ValidationError::NonPositiveAmount);
            }
        }
        match self.transaction_type {
            TransactionType::Deposit => match self.amount {
                Some(amount) => Ok(
                    Transaction::Deposit(Deposit { client: self.client, tx: self.tx, amount }),
                ),
                None => Err(ValidationError::MissingAmount),
            },
            TransactionType::Withdrawal => match self.amount {
                Some(amount) => Ok(
                    Transaction::Withdrawal(
                        Withdrawal { client: self.client, tx: self.tx, amount },
                    ),
                ),
                None => Err(ValidationError::MissingAmount),
            },
            TransactionType::Dispute => Ok(
                Transaction::Dispute(Dispute { client: self.client, tx: self.tx }),
            ),
            TransactionType::Resolve => Ok(
                Transaction::Resolve(Resolve { client: self.client, tx: self.tx }),
            ),
            TransactionType::Chargeback => Ok(
                Transaction::Chargeback(Chargeback { client: self.client, tx: self.tx }),
            ),
        }
    }

    /// A record is accepted exactly when it carries an amount where its kind
    /// asks for one and nowhere else, and that amount is positive; the
    /// transaction then has the record's kind, client, tx and amount.
    pub proof fn lemma_validated_iff(self)
        ensures
            self.validated() is Ok <==> (match self.amount {
                Some(amount) => self.transaction_type.has_amount() && amount.is_positive(),
                None => !self.transaction_type.has_amount(),
            }),
            self.validated() is Ok ==> self.validated().unwrap().client() == self.client
                && self.validated().unwrap().tx() == self.tx
                && self.validated().unwrap().transaction_type() == self.transaction_type,
    {
    }
}

impl Transaction {
    /// The client that the transaction names.
    pub open spec fn client(self) -> ClientId {
        match self {
            Transaction::Deposit(t) => t.client,
            Transaction::Withdrawal(t) => t.client,
            Transaction::Dispute(t) => t.client,
            Transaction::Resolve(t) => t.client,
            Transaction::Chargeback(t) => t.client,
        }
    }

    /// The transaction id that the transaction names.
    pub open spec fn tx(self) -> TransactionId {
        match self {
            Transaction::Deposit(t) => t.tx,
            Transaction::Withdrawal(t) => t.tx,
            Transaction::Dispute(t) => t.tx,
            Transaction::Resolve(t) => t.tx,
            Transaction::Chargeback(t) => t.tx,
        }
    }

    /// The kind of the transaction.
    pub open spec fn transaction_type(self) -> TransactionType {
        match self {
            Transaction::Deposit(_) => TransactionType::Deposit,
            Transaction::Withdrawal(_) => TransactionType::Withdrawal,
            Transaction::Dispute(_) => TransactionType::Dispute,
            Transaction::Resolve(_) => TransactionType::Resolve,
            Transaction::Chargeback(_) => TransactionType::Chargeback,
        }
    }
}

impl From<TransactionRecord> for Result<Transaction, ValidationError> {
    fn from(record: TransactionRecord) -> (r: Self) {
        record.validate()
    }
}

impl FromSpecImpl<TransactionRecord> for Result<Transaction, ValidationError> {
    open spec fn obeys_from_spec() -> bool {
        true
    }

    open spec fn from_spec(record: TransactionRecord) -> Self {
        record.validated()
    }
}

} // verus!
