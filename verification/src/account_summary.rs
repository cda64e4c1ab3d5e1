//! The summary of an account as it is handed out: the account's fields and
//! the available balance derived from them.

use crate::amount::Amount;
use crate::client::ClientId;
use crate::store::Account;
use vstd::prelude::*;

verus! {

/// State of a client's account, with the available balance written out.
#[derive(Debug, Clone, Copy, PartialEq, Eq, Structural)]
pub struct AccountSummary {
    client: ClientId,
    available: Amount,
    held: Amount,
    total: Amount,
    locked: bool,
}

impl AccountSummary {
    /// In every summary the available balance is `total - held`.
    #[verifier::type_invariant]
    pub closed spec fn derived(self) -> bool {
        Some(self.available) == self.total.difference(self.held)
    }

    /// The client the summary is of.
    pub closed spec fn spec_client(self) -> ClientId {
        self.client
    }

    /// The available balance.
    pub closed spec fn spec_available(self) -> Amount {
        self.available
    }

    /// The held funds.
    pub closed spec fn spec_held(self) -> Amount {
        self.held
    }

    /// The total.
    pub closed spec fn spec_total(self) -> Amount {
        self.total
    }

    /// Whether the account is locked.
    pub closed spec fn spec_locked(self) -> bool {
        self.locked
    }

    /// The summary with the given fields and `total - held` as the available
    /// balance, where that can be represented.
    pub closed spec fn of(client: ClientId, held: Amount, total: Amount, locked: bool) -> Option<
        AccountSummary,
    > {
        match total.difference(held) {
            Some(available) => Some(AccountSummary { client, available, held, total, locked }),
            None => None,
        }
    }

    /// The summary of an account.
    pub open spec fn summarized(account: Account) -> Option<AccountSummary> {
        AccountSummary::of(account.client, account.held, account.total, account.locked)
    }

    /// The account that a summary describes: its fields without the available
    /// balance.
    pub closed spec fn spec_account(self) -> Account {
        Account { client: self.client, held: self.held, total: self.total, locked: self.locked }
    }

    /// `of` gives a summary exactly where `total - held` can be represented,
    /// and that summary has the given fields and that difference as its
    /// available balance.
    pub proof fn lemma_of(client: ClientId, held: Amount, total: Amount, locked: bool)
        ensures
            AccountSummary::of(client, held, total, locked) is Some <==> total.difference(held)
                is Some,
            AccountSummary::of(client, held, total, locked) matches Some(s) ==> {
                &&& s.spec_client() == client
                &&& s.spec_held() == held
                &&& s.spec_total() == total
                &&& s.spec_locked() == locked
                &&& Some(s.spec_available()) == total.difference(held)
            },
    {
    }

    /// Summarising an account and reading the account back from the summary
    /// gives the account again: `held`, `total` and `locked` (and the client)
    /// survive, the available balance is dropped.
    pub proof fn lemma_round_trip(account: Account)
        requires
            AccountSummary::summarized(account) is Some,
        ensures
            AccountSummary::summarized(account).unwrap().spec_account() == account,
    {
    }

    /// A summary is the summary of the account it describes.
    pub proof fn lemma_summary_of_account(self)
        requires
            self.derived(),
        ensures
            AccountSummary::summarized(self.spec_account()) == Some(self),
    {
    }

    /// Creates a summary, computing the available balance.
    pub fn new(client: ClientId, held: Amount, total: Amount, locked: bool) -> (r: Self)
        requires
            total.difference(held) is Some,
        ensures
            Some(r) == AccountSummary::of(client, held, total, locked),
    {
        let available = total.checked_sub(held).unwrap();
        AccountSummary { client, available, held, total, locked }
    }

    /// Creates a summary where the available balance can be represented.
    pub fn try_new(client: ClientId, held: Amount, total: Amount, locked: bool) -> (r: Option<
        Self,
    >)
        ensures
            r == AccountSummary::of(client, held, total, locked),
    {
        match total.checked_sub(held) {
            Some(_) => Some(AccountSummary::new(client, held, total, locked)),
            None => None,
        }
    }

    /// Creates the summary of an account with a balance of zero.
    pub fn empty(client: ClientId) -> (r: Self)
        ensures
            Some(r) == AccountSummary::of(client, Amount::spec_zero(), Amount::spec_zero(), false),
            r.spec_available() == Amount::spec_zero(),
    {
        let zero = Amount::zero();
        proof {
            Amount::lemma_parts_of(0, 0);
        }
        let available = zero.checked_sub(zero).unwrap();
        AccountSummary { client, available, held: zero, total: zero, locked: false }
    }

    /// Summarises an account, where its available balance can be represented.
    pub fn from_account(account: &Account) -> (r: Option<Self>)
        ensures
            r == AccountSummary::summarized(*account),
    {
        AccountSummary::try_new(account.client, account.held, account.total, account.locked)
    }

    /// The account that the summary describes.
    #[verifier::when_used_as_spec(spec_account)]
    pub fn account(self) -> (r: Account)
        ensures
            r == self.spec_account(),
    {
        Account { client: self.client, held: self.held, total: self.total, locked: self.locked }
    }

    /// The client the summary is of.
    #[verifier::when_used_as_spec(spec_client)]
    pub fn client(self) -> (r: ClientId)
        ensures
            r == self.spec_client(),
    {
        self.client
    }

    /// The available balance, which is `total - held`.
    #[verifier::when_used_as_spec(spec_available)]
    pub fn available(self) -> (r: Amount)
        ensures
            r == self.spec_available(),
            Some(r) == self.spec_total().difference(self.spec_held()),
    {
        proof {
            use_type_invariant(&self);
        }
        self.available
    }

    /// The held funds.
    #[verifier::when_used_as_spec(spec_held)]
    pub fn held(self) -> (r: Amount)
        ensures
            r == self.spec_held(),
    {
        self.held
    }

    /// The total.
    #[verifier::when_used_as_spec(spec_total)]
    pub fn total(self) -> (r: Amount)
        ensures
            r == self.spec_total(),
    {
        self.total
    }

    /// Whether the account is locked.
    #[verifier::when_used_as_spec(spec_locked)]
    pub fn locked(self) -> (r: bool)
        ensures
            r == self.spec_locked(),
    {
        self.locked
    }
}

} // verus!
