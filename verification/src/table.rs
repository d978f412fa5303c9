//! The two tables of the ledger, kept in `ink_storage::collections::HashMap`.
//!
//! Nothing in this file is proved. Each function calls one method of that map
//! and states what the map's source shows of it, over the table's contents as
//! a mathematical map; the rest of the crate is proved from these statements.
//! A table made here is never bound to contract storage, so no call reaches
//! the environment.

use vstd::prelude::*;
use ink_storage::collections::HashMap;
use crate::account::{AccountId, Balance};

verus! {

/// What each account holds, in a hash map of `ink_storage` keyed by the
/// account's bytes.
#[verifier::external_body]
pub struct BalanceTable {
    entries: HashMap<[u8; 32], Balance>,
}

/// The accounts in a balance table, each with the amount stored for it.
pub uninterp spec fn balance_entries(table: BalanceTable) -> Map<AccountId, Balance>;

impl View for BalanceTable {
    type V = Map<AccountId, Balance>;

    open spec fn view(&self) -> Map<AccountId, Balance> {
        balance_entries(*self)
    }
}

impl BalanceTable {
    /// Calls `HashMap::new`: a map that holds nothing.
    #[verifier::external_body]
    pub(crate) fn new() -> (table: BalanceTable)
        ensures
            (balance_entries(table) == Map::<AccountId, Balance>::empty()),
    {
        BalanceTable { entries: HashMap::new() }
    }

    /// Calls `HashMap::get`: the amount stored for `account`, if the map holds
    /// the account at all. The map's contents stay what they were.
    #[verifier::external_body]
    pub(crate) fn get(&self, account: &AccountId) -> (found: Option<Balance>)
        ensures
            found == balance_entries(*self).get(*account),
    {
        self.entries.get(&account.bytes).copied()
    }

    /// Calls `HashMap::insert`: stores `amount` for `account`, in place of
    /// what was stored for it if anything was; what the call returns is
    /// dropped. No other account's entry changes. The map counts its keys in
    /// a `u32` and does not guard the increment, so a new key is only given to
    /// a map with fewer than `u32::MAX` keys; on such a map the call does not
    /// panic.
    #[verifier::external_body]
    pub(crate) fn insert(&mut self, account: AccountId, amount: Balance)
        requires
            balance_entries(*old(self)).dom().finite(),
            balance_entries(*old(self)).dom().contains(account)
                || balance_entries(*old(self)).dom().len() < u32::MAX,
        ensures
            balance_entries(*final(self)) == balance_entries(*old(self)).insert(account, amount),
        no_unwind
    {
        self.entries.insert(account.bytes, amount);
    }

    /// Calls `HashMap::len`: the number of accounts that the map holds.
    #[verifier::external_body]
    pub(crate) fn len(&self) -> (count: u32)
        ensures
            count == balance_entries(*self).dom().len(),
    {
        self.entries.len()
    }
}

/// What each owner lets each spender take, in a hash map of `ink_storage`
/// keyed by the bytes of the two accounts, the owner's first.
#[verifier::external_body]
pub struct AllowanceTable {
    entries: HashMap<([u8; 32], [u8; 32]), Balance>,
}

/// The pairs of owner and spender in an allowance table, each with the amount
/// stored for it.
pub uninterp spec fn allowance_entries(table: AllowanceTable) -> Map<(AccountId, AccountId), Balance>;

impl View for AllowanceTable {
    type V = Map<(AccountId, AccountId), Balance>;

    open spec fn view(&self) -> Map<(AccountId, AccountId), Balance> {
        allowance_entries(*self)
    }
}

impl AllowanceTable {
    /// Calls `HashMap::new`: a map that holds nothing.
    #[verifier::external_body]
    pub(crate) fn new() -> (table: AllowanceTable)
        ensures
            (allowance_entries(table) == Map::<(AccountId, AccountId), Balance>::empty()),
    {
        AllowanceTable { entries: HashMap::new() }
    }

    /// Calls `HashMap::get`: the amount stored for the pair, if the map holds
    /// the pair at all. The map's contents stay what they were.
    #[verifier::external_body]
    pub(crate) fn get(&self, owner: &AccountId, spender: &AccountId) -> (found: Option<Balance>)
        ensures
            found == allowance_entries(*self).get((*owner, *spender)),
    {
        self.entries.get(&(owner.bytes, spender.bytes)).copied()
    }
}

} // verus!
