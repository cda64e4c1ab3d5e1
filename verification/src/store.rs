//! Accounts and the store that owns them.
//!
//! Every operation of a store first makes sure that the client has an account,
//! creating an empty one on first reference, and then either changes that one
//! account or fails and changes nothing else.

use crate::amount::Amount;
use crate::client::ClientId;
use std::collections::HashMap;
use vstd::prelude::*;
use vstd::std_specs::iter::IteratorSpec;

verus! {

broadcast use vstd::std_specs::hash::group_hash_axioms;

/// The balance of one client.
///
/// The available balance is not stored: it is `total - held`. Nothing forces
/// `held` to stay below `total`, so the available balance can be negative.
#[derive(Debug, Clone, Copy, PartialEq, Eq, Structural)]
pub struct Account {
    pub client: ClientId,
    pub held: Amount,
    pub total: Amount,
    pub locked: bool,
}

/// Why a store refused an operation.
#[derive(Debug, Clone, Copy, PartialEq, Eq, Structural)]
pub enum StoreError {
    /// The account is locked.
    AccountLocked,
    /// The amount is more than the available balance.
    InsufficientFunds,
    /// The new balance cannot be represented.
    Overflow,
}

impl StoreError {
    /// What the message says.
    pub open spec fn text(self) -> Seq<char> {
        match self {
            StoreError::AccountLocked => "Account is locked"@,
            StoreError::InsufficientFunds => "Insufficient funds available"@,
            StoreError::Overflow => "Balance out of range"@,
        }
    }

    /// A few words on the error, for a log.
    pub fn message(&self) -> (r: &'static str)
        ensures
            r@ == self.text(),
    {
        match self {
            StoreError::AccountLocked => "Account is locked",
            StoreError::InsufficientFunds => "Insufficient funds available",
            StoreError::Overflow => "Balance out of range",
        }
    }
}

impl Account {
    /// The account of `client` with nothing in it.
    pub open spec fn spec_empty(client: ClientId) -> Account {
        Account { client, held: Amount::spec_zero(), total: Amount::spec_zero(), locked: false }
    }

    /// `total - held`, `None` where that cannot be represented.
    pub open spec fn available(self) -> Option<Amount> {
        self.total.difference(self.held)
    }

    /// The account after `amount` is added to the total.
    pub open spec fn credited(self, amount: Amount) -> Result<Account, StoreError> {
        if self.locked {
            Err(StoreError::AccountLocked)
        } else {
            match self.total.sum(amount) {
                Some(total) => Ok(
                    Account { client: self.client, held: self.held, total, locked: false },
                ),
                None => Err(StoreError::Overflow),
            }
        }
    }

    /// The account after `amount` is taken from the total, which asks that
    /// `amount` is not more than the available balance.
    pub open spec fn debited(self, amount: Amount) -> Result<Account, StoreError> {
        if self.locked {
            Err(StoreError::AccountLocked)
        } else {
            match self.available() {
                None => Err(StoreError::Overflow),
                Some(available) => if available.less_than(amount) {
                    Err(StoreError::InsufficientFunds)
                } else {
                    match self.total.difference(amount) {
                        Some(total) => Ok(
                            Account { client: self.client, held: self.held, total, locked: false },
                        ),
                        None => Err(StoreError::Overflow),
                    }
                },
            }
        }
    }

    /// The account after `amount` is added to the held funds. The total sets
    /// no ceiling.
    pub open spec fn holding(self, amount: Amount) -> Result<Account, StoreError> {
        if self.locked {
            Err(StoreError::AccountLocked)
        } else {
            match self.held.sum(amount) {
                Some(held) => Ok(
                    Account { client: self.client, held, total: self.total, locked: false },
                ),
                None => Err(StoreError::Overflow),
            }
        }
    }

    /// The account after `amount` is taken from the held funds.
    pub open spec fn releasing(self, amount: Amount) -> Result<Account, StoreError> {
        if self.locked {
            Err(StoreError::AccountLocked)
        } else {
            match self.held.difference(amount) {
                Some(held) => Ok(
                    Account { client: self.client, held, total: self.total, locked: false },
                ),
                None => Err(StoreError::Overflow),
            }
        }
    }

    /// The account after `amount` is taken from both the held funds and the
    /// total, which locks it, whatever the new total is.
    pub open spec fn charged_back(self, amount: Amount) -> Result<Account, StoreError> {
        if self.locked {
            Err(StoreError::AccountLocked)
        } else {
            match (self.held.difference(amount), self.total.difference(amount)) {
                (Some(held), Some(total)) => Ok(
                    Account { client: self.client, held, total, locked: true },
                ),
                _ => Err(StoreError::Overflow),
            }
        }
    }

    /// The account of `client` with nothing in it.
    #[verifier::when_used_as_spec(spec_empty)]
    pub fn empty(client: ClientId) -> (r: Account)
        ensures
            r == Account::spec_empty(client),
    {
        Account { client, held: Amount::zero(), total: Amount::zero(), locked: false }
    }

    /// The available balance `total - held`.
    pub fn get_available(&self) -> (r: Amount)
        requires
            self.available() is Some,
        ensures
            Some(r) == self.available(),
    {
        self.total.checked_sub(self.held).unwrap()
    }

    /// The available balance `total - held`, or `None` where it cannot be
    /// represented.
    pub fn checked_available(&self) -> (r: Option<Amount>)
        ensures
            r == self.available(),
    {
        match self.total.checked_sub(self.held) {
            Some(_) => Some(self.get_available()),
            None => None,
        }
    }
}

/// The account that `client` has in `accounts`, which is the empty account
/// where the client was never referred to.
pub open spec fn account_of(accounts: Map<u16, Account>, client: ClientId) -> Account {
    if accounts.contains_key(client.0) {
        accounts[client.0]
    } else {
        Account::spec_empty(client)
    }
}

/// The accounts after an operation on the account of `client` came to
/// `outcome`: the client has an account in any case, the new one where the
/// operation succeeded and the one it had where it failed.
pub open spec fn settled(
    accounts: Map<u16, Account>,
    client: ClientId,
    outcome: Result<Account, StoreError>,
) -> Map<u16, Account> {
    accounts.insert(
        client.0,
        match outcome {
            Ok(account) => account,
            Err(_) => account_of(accounts, client),
        },
    )
}

/// What the caller of an operation is told of `outcome`.
pub open spec fn reported(outcome: Result<Account, StoreError>) -> Result<(), StoreError> {
    match outcome {
        Ok(_) => Ok(()),
        Err(e) => Err(e),
    }
}

/// Whether `exported` holds the account of every client in `accounts` exactly
/// once, in some order.
pub open spec fn exports(accounts: Map<u16, Account>, exported: Seq<Account>) -> bool {
    exists|clients: Seq<u16>|
        {
            &&& clients.no_duplicates()
            &&& clients.to_set() == accounts.dom()
            &&& #[trigger] clients.len() == exported.len()
            &&& forall|i: int|
                0 <= i < clients.len() ==> exported[i] == accounts[#[trigger] clients[i]]
        }
}

/// A store of accounts, one per client.
pub trait AccountStore: Sized {
    /// The accounts in the store, by the client's number.
    spec fn accounts(&self) -> Map<u16, Account>;

    /// Adds funds to a client's account.
    fn add_funds(&mut self, client: ClientId, amount: Amount) -> (r: Result<(), StoreError>)
        ensures
            r == reported(account_of(old(self).accounts(), client).credited(amount)),
            final(self).accounts() == settled(
                old(self).accounts(),
                client,
                account_of(old(self).accounts(), client).credited(amount),
            ),
    ;

    /// Removes funds from a client's account.
    fn remove_funds(&mut self, client: ClientId, amount: Amount) -> (r: Result<(), StoreError>)
        ensures
            r == reported(account_of(old(self).accounts(), client).debited(amount)),
            final(self).accounts() == settled(
                old(self).accounts(),
                client,
                account_of(old(self).accounts(), client).debited(amount),
            ),
    ;

    /// Holds funds of a client's account.
    fn hold_funds(&mut self, client: ClientId, amount: Amount) -> (r: Result<(), StoreError>)
        ensures
            r == reported(account_of(old(self).accounts(), client).holding(amount)),
            final(self).accounts() == settled(
                old(self).accounts(),
                client,
                account_of(old(self).accounts(), client).holding(amount),
            ),
    ;

    /// Releases held funds of a client's account.
    fn release_funds(&mut self, client: ClientId, amount: Amount) -> (r: Result<(), StoreError>)
        ensures
            r == reported(account_of(old(self).accounts(), client).releasing(amount)),
            final(self).accounts() == settled(
                old(self).accounts(),
                client,
                account_of(old(self).accounts(), client).releasing(amount),
            ),
    ;

    /// Takes held funds out of a client's account for good and locks it.
    fn release_and_debit(&mut self, client: ClientId, amount: Amount) -> (r: Result<
        (),
        StoreError,
    >)
        ensures
            r == reported(account_of(old(self).accounts(), client).charged_back(amount)),
            final(self).accounts() == settled(
                old(self).accounts(),
                client,
                account_of(old(self).accounts(), client).charged_back(amount),
            ),
    ;

    /// Hands out all accounts, consuming the store.
    fn export(self) -> (r: Vec<Account>)
        ensures
            exports(self.accounts(), r@),
    ;
}

/// A store that keeps its accounts in memory.
pub struct InMemoryAccountStore {
    accounts: HashMap<u16, Account>,
}

impl InMemoryAccountStore {
    /// A store without accounts.
    pub fn new() -> (r: Self)
        ensures
            r.accounts() == Map::<u16, Account>::empty(),
    {
        InMemoryAccountStore { accounts: HashMap::new() }
    }

    /// The account of `client`, created empty on first reference, for the
    /// caller to change; `AccountLocked` where it is locked.
    pub fn get_account(&mut self, client: ClientId) -> (r: Result<&mut Account, StoreError>)
        ensures
            match r {
                Ok(account) => {
                    &&& *account == account_of(old(self).accounts(), client)
                    &&& !account.locked
                    &&& final(self).accounts() == old(self).accounts().insert(
                        client.0,
                        *final(account),
                    )
                },
                Err(e) => {
                    &&& e == StoreError::AccountLocked
                    &&& account_of(old(self).accounts(), client).locked
                    &&& final(self).accounts() == old(self).accounts().insert(
                        client.0,
                        account_of(old(self).accounts(), client),
                    )
                },
            },
    {
        let account = self.accounts.entry(client.0).or_insert(Account::empty(client));
        if account.locked {
            Err(StoreError::AccountLocked)
        } else {
            Ok(account)
        }
    }
}

impl AccountStore for InMemoryAccountStore {
    closed spec fn accounts(&self) -> Map<u16, Account> {
        self.accounts@
    }

    fn add_funds(&mut self, client: ClientId, amount: Amount) -> (r: Result<(), StoreError>) {
        let account = self.get_account(client)?;
        match account.total.checked_add(amount) {
            Some(total) => {
                account.total = total;
                Ok(())
            },
            None => Err(StoreError::Overflow),
        }
    }

    fn remove_funds(&mut self, client: ClientId, amount: Amount) -> (r: Result<(), StoreError>) {
        let account = self.get_account(client)?;
        let available = match account.checked_available() {
            Some(available) => available,
            None => {
                return Err(StoreError::Overflow);
            },
        };
        if available.lt(&amount) {
            return Err(StoreError::InsufficientFunds);
        }
        match account.total.checked_sub(amount) {
            Some(total) => {
                account.total = total;
                Ok(())
            },
            None => Err(StoreError::Overflow),
        }
    }

    fn hold_funds(&mut self, client: ClientId, amount: Amount) -> (r: Result<(), StoreError>) {
        let account = self.get_account(client)?;
        match account.held.checked_add(amount) {
            Some(held) => {
                account.held = held;
                Ok(())
            },
            None => Err(StoreError::Overflow),
        }
    }

    fn release_funds(&mut self, client: ClientId, amount: Amount) -> (r: Result<(), StoreError>) {
        let account = self.get_account(client)?;
        match account.held.checked_sub(amount) {
            Some(held) => {
                account.held = held;
                Ok(())
            },
            None => Err(StoreError::Overflow),
        }
    }

    fn release_and_debit(&mut self, client: ClientId, amount: Amount) -> (r: Result<
        (),
        StoreError,
    >) {
        let account = self.get_account(client)?;
        match (account.held.checked_sub(amount), account.total.checked_sub(amount)) {
            (Some(held), Some(total)) => {
                account.held = held;
                account.total = total;
                account.locked = true;
                Ok(())
            },
            _ => Err(StoreError::Overflow),
        }
    }

    fn export(self) -> (r: Vec<Account>) {
        let mut exported: Vec<Account> = Vec::new();
        let ghost keys: Seq<u16> = self.accounts.keys().remaining().unref();
        let ghost mut clients: Seq<u16> = Seq::empty();
        for client in it: self.accounts.keys()
            invariant
                it.seq().unref() == keys,
                keys.to_set() == self.accounts@.dom(),
                clients.len() == exported.len(),
                clients.len() == it.index(),
                forall|i: int| 0 <= i < clients.len() ==> clients[i] == keys[i],
                forall|i: int|
                    0 <= i < clients.len() ==> exported[i] == self.accounts@[#[trigger] clients[i]],
        {
            if let Some(account) = self.accounts.get(client) {
                exported.push(*account);
            }
            proof {
                clients = clients.push(*client);
            }
        }
        exported
    }
}

} // verus!
