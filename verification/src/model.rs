//! The ledger as a mathematical value, and what each operation makes of it.

use vstd::prelude::*;
use crate::account::{AccountId, Balance};

verus! {

/// Why a debit was turned down.
#[derive(Clone, Copy, Debug, PartialEq, Eq, Structural)]
pub enum Error {
    /// The account to debit holds less than the amount asked for.
    InsufficientBallance,
}

/// The notice of a completed transfer, for the host to announce.
#[derive(Clone, Copy, Debug, PartialEq, Eq)]
pub struct Transfer {
    pub from: AccountId,
    pub to: AccountId,
    pub value: Balance,
}

/// The most accounts that the balance table can hold.
pub open spec fn account_limit() -> nat {
    u32::MAX as nat
}

/// What a balance becomes when `value` is credited to it: the sum, held at
/// the largest balance there is where the sum would pass it.
pub open spec fn credited(balance: Balance, value: Balance) -> Balance {
    if balance + value > Balance::MAX {
        Balance::MAX
    } else {
        (balance + value) as Balance
    }
}

/// What a balance becomes when `value` is burnt from it: the difference, or
/// nothing where the balance is the smaller of the two.
pub open spec fn burnt(balance: Balance, value: Balance) -> Balance {
    if balance < value {
        0
    } else {
        (balance - value) as Balance
    }
}

/// The state of a ledger.
pub struct Ledger {
    /// The supply that the ledger was opened with. No operation changes it.
    pub total_supply: Balance,
    /// The amount on record for each account that has an entry.
    pub balances: Map<AccountId, Balance>,
    /// The amount on record for each pair of an owner and a spender.
    pub allowances: Map<(AccountId, AccountId), Balance>,
}

impl Ledger {
    /// The ledger that `caller` opens with `total_supply`: the whole supply
    /// stands to the caller's credit, and no allowance is on record.
    pub open spec fn opened(caller: AccountId, total_supply: Balance) -> Ledger {
        Ledger {
            total_supply,
            balances: Map::empty().insert(caller, total_supply),
            allowances: Map::empty(),
        }
    }

    /// What `account` holds: the amount on record, nothing without an entry.
    pub open spec fn balance_of(self, account: AccountId) -> Balance {
        if self.balances.dom().contains(account) {
            self.balances[account]
        } else {
            0
        }
    }

    /// What `spender` may take from `owner`: the amount on record, nothing
    /// without an entry.
    pub open spec fn allowance(self, owner: AccountId, spender: AccountId) -> Balance {
        if self.allowances.dom().contains((owner, spender)) {
            self.allowances[(owner, spender)]
        } else {
            0
        }
    }

    /// How many entries the balance table lacks for `first` and `second`,
    /// which may be one account.
    pub open spec fn places_needed(self, first: AccountId, second: AccountId) -> nat {
        let for_first: nat = if self.balances.dom().contains(first) { 0 } else { 1 };
        let for_second: nat = if second == first || self.balances.dom().contains(second) { 0 } else { 1 };
        for_first + for_second
    }

    /// Whether the balance table can take an entry for each of `first` and
    /// `second` that has none yet.
    pub open spec fn room_for(self, first: AccountId, second: AccountId) -> bool {
        self.balances.dom().len() + self.places_needed(first, second) <= account_limit()
    }

    /// This ledger with `amount` on record for `account`.
    pub open spec fn with_balance(self, account: AccountId, amount: Balance) -> Ledger {
        Ledger { balances: self.balances.insert(account, amount), ..self }
    }

    /// Whether `from` holds enough to be debited by `value`.
    pub open spec fn covers(self, from: AccountId, value: Balance) -> bool {
        self.balance_of(from) >= value
    }

    /// The ledger after `value` has moved from `from` to `to`: first the
    /// debit, then the credit on what the debit left.
    pub open spec fn transferred(self, from: AccountId, to: AccountId, value: Balance) -> Ledger
        recommends
            self.covers(from, value),
    {
        let debited = self.with_balance(from, (self.balance_of(from) - value) as Balance);
        debited.with_balance(to, credited(debited.balance_of(to), value))
    }

    /// The ledger after `who` has burnt `value`.
    pub open spec fn burned(self, who: AccountId, value: Balance) -> Ledger {
        self.with_balance(who, burnt(self.balance_of(who), value))
    }

    /// The ledger after `value` has been issued to `to`.
    pub open spec fn issued(self, to: AccountId, value: Balance) -> Ledger {
        self.with_balance(to, credited(self.balance_of(to), value))
    }
}

/// A ledger with room for two accounts can take an entry for either of them,
/// and has room for the two afterwards as well.
pub proof fn lemma_room_admits(
    ledger: Ledger,
    first: AccountId,
    second: AccountId,
    account: AccountId,
    amount: Balance,
)
    requires
        ledger.balances.dom().finite(),
        ledger.room_for(first, second),
        account == first || account == second,
    ensures
        ledger.balances.dom().contains(account) || ledger.balances.dom().len() < account_limit(),
        ledger.with_balance(account, amount).room_for(first, second),
{
}

} // verus!
