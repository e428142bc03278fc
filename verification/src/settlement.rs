//! The settlement ledger: the collaborator that moves value between users.
//!
//! The bet ledger never touches balances directly; it asks this ledger to
//! debit the registration fee and to credit the reward. Both operations are
//! atomic: they either change exactly one balance or leave the ledger as it
//! was, reporting a typed error.

use std::collections::HashMap;
use vstd::prelude::*;

verus! {

broadcast use vstd::std_specs::hash::group_hash_axioms;

/// An opaque user identity, wide enough for any account scheme.
pub type User = u128;

/// An amount of value held or transferred.
pub type Balance = u128;

/// Why a transfer did not complete. Either way, no balance changed.
#[derive(Debug, Clone, Copy, PartialEq, Eq)]
pub enum TransferError {
    /// A debit asked for more than the payer holds.
    InsufficientFunds,
    /// A credit would push the recipient's balance past the representable maximum.
    Overflow,
}

/// The balance a map of accounts assigns to `user`; users without an entry hold nothing.
pub open spec fn balance_in(accounts: Map<User, Balance>, user: User) -> Balance {
    if accounts.contains_key(user) {
        accounts[user]
    } else {
        0
    }
}

/// The account map and outcome a debit of `amount` from `user` leads to.
pub open spec fn spec_debit(accounts: Map<User, Balance>, user: User, amount: Balance) -> (Map<
    User,
    Balance,
>, Result<(), TransferError>) {
    if balance_in(accounts, user) >= amount {
        (
            accounts.insert(user, (balance_in(accounts, user) - amount) as Balance),
            Ok(()),
        )
    } else {
        (accounts, Err(TransferError::InsufficientFunds))
    }
}

/// The account map and outcome a credit of `amount` to `user` leads to.
pub open spec fn spec_credit(accounts: Map<User, Balance>, user: User, amount: Balance) -> (Map<
    User,
    Balance,
>, Result<(), TransferError>) {
    if balance_in(accounts, user) + amount <= Balance::MAX {
        (
            accounts.insert(user, (balance_in(accounts, user) + amount) as Balance),
            Ok(()),
        )
    } else {
        (accounts, Err(TransferError::Overflow))
    }
}

/// A ledger of balances, keyed by user identity.
pub struct SettlementLedger {
    accounts: HashMap<User, Balance>,
}

impl View for SettlementLedger {
    type V = Map<User, Balance>;

    closed spec fn view(&self) -> Map<User, Balance> {
        self.accounts@
    }
}

impl SettlementLedger {
    /// An empty ledger: every user holds nothing.
    pub fn new() -> (r: Self)
        ensures
            r@ == Map::<User, Balance>::empty(),
    {
        SettlementLedger { accounts: HashMap::new() }
    }

    /// The balance `user` currently holds.
    pub fn balance_of(&self, user: User) -> (r: Balance)
        ensures
            r == balance_in(self@, user),
    {
        match self.accounts.get(&user) {
            Some(b) => *b,
            None => 0,
        }
    }

    /// Take `amount` from `user`. Fails, changing nothing, when the user
    /// holds less than `amount`.
    pub fn debit(&mut self, user: User, amount: Balance) -> (r: Result<(), TransferError>)
        ensures
            (final(self)@, r) == spec_debit(old(self)@, user, amount),
            r is Ok <==> balance_in(old(self)@, user) >= amount,
            r is Ok ==> balance_in(final(self)@, user) == balance_in(old(self)@, user) - amount,
            r is Err ==> final(self)@ == old(self)@ && r == Err::<(), TransferError>(
                TransferError::InsufficientFunds,
            ),
            forall|u: User| u != user ==> balance_in(final(self)@, u) == balance_in(old(self)@, u),
    {
        let bal = self.balance_of(user);
        if bal >= amount {
            self.accounts.insert(user, bal - amount);
            Ok(())
        } else {
            Err(TransferError::InsufficientFunds)
        }
    }

    /// Give `amount` to `user`. Fails, changing nothing, when the new balance
    /// would not be representable.
    pub fn credit(&mut self, user: User, amount: Balance) -> (r: Result<(), TransferError>)
        ensures
            (final(self)@, r) == spec_credit(old(self)@, user, amount),
            r is Ok <==> balance_in(old(self)@, user) + amount <= Balance::MAX,
            r is Ok ==> balance_in(final(self)@, user) == balance_in(old(self)@, user) + amount,
            r is Err ==> final(self)@ == old(self)@ && r == Err::<(), TransferError>(
                TransferError::Overflow,
            ),
            forall|u: User| u != user ==> balance_in(final(self)@, u) == balance_in(old(self)@, u),
    {
        let bal = self.balance_of(user);
        if amount <= Balance::MAX - bal {
            self.accounts.insert(user, bal + amount);
            Ok(())
        } else {
            Err(TransferError::Overflow)
        }
    }
}

} // verus!
