//! The ledger itself: the tables, and the operations on them.

use vstd::prelude::*;
use crate::account::{AccountId, Balance};
use crate::model::{credited, lemma_room_admits, Error, Ledger, Transfer};
use crate::table::{AllowanceTable, BalanceTable};

verus! {

/// A ledger of one token: who holds how much of it.
pub struct Erc20 {
    total_supply: Balance,
    balances: BalanceTable,
    allowance: AllowanceTable,
}

impl View for Erc20 {
    type V = Ledger;

    closed spec fn view(&self) -> Ledger {
        Ledger {
            total_supply: self.total_supply,
            balances: self.balances@,
            allowances: self.allowance@,
        }
    }
}

impl Erc20 {
    /// Every ledger has finitely many accounts on record.
    #[verifier::type_invariant]
    spec fn countable(self) -> bool {
        self.balances@.dom().finite()
    }

    /// Opens a ledger for `caller`, who is credited with the whole of
    /// `total_supply`.
    pub fn new(caller: AccountId, total_supply: Balance) -> (ledger: Erc20)
        ensures
            ledger@ == Ledger::opened(caller, total_supply),
            ledger@.total_supply == total_supply,
            ledger@.balance_of(caller) == total_supply,
            forall|other: AccountId| other != caller ==> ledger@.balance_of(other) == 0,
            forall|owner: AccountId, spender: AccountId| ledger@.allowance(owner, spender) == 0,
    {
        let mut balances = BalanceTable::new();
        balances.insert(caller, total_supply);
        Erc20 { total_supply, balances, allowance: AllowanceTable::new() }
    }

    /// Opens a ledger for `caller` with no supply at all.
    pub fn default(caller: AccountId) -> (ledger: Erc20)
        ensures
            ledger@ == Ledger::opened(caller, 0),
    {
        Erc20::new(caller, 0)
    }

    /// The supply that the ledger was opened with.
    pub fn total_supply(&self) -> (supply: Balance)
        ensures
            supply == self@.total_supply,
    {
        self.total_supply
    }

    /// What `owner` holds.
    pub fn balance_of(&self, owner: AccountId) -> (balance: Balance)
        ensures
            balance == self@.balance_of(owner),
    {
        match self.balances.get(&owner) {
            Some(balance) => balance,
            None => 0,
        }
    }

    /// What `spender` may take from `owner`.
    pub fn allowance(&self, owner: AccountId, spender: AccountId) -> (amount: Balance)
        ensures
            amount == self@.allowance(owner, spender),
    {
        match self.allowance.get(&owner, &spender) {
            Some(amount) => amount,
            None => 0,
        }
    }

    /// How many accounts have an entry in the ledger.
    pub fn accounts(&self) -> (count: u32)
        ensures
            count == self@.balances.dom().len(),
    {
        self.balances.len()
    }

    /// Whether the ledger can take an entry for each of `first` and `second`
    /// that has none yet; the two may be one account. The operations that
    /// write to an account ask for this room, which only a ledger of some
    /// four thousand million accounts lacks.
    pub fn has_room_for(&self, first: AccountId, second: AccountId) -> (roomy: bool)
        ensures
            roomy == self@.room_for(first, second),
    {
        let listed = self.accounts();
        let first_is_new = self.balances.get(&first).is_none();
        let second_is_new = first != second && self.balances.get(&second).is_none();
        if first_is_new && second_is_new {
            listed < u32::MAX - 1
        } else if first_is_new || second_is_new {
            listed < u32::MAX
        } else {
            true
        }
    }

    /// Moves `value` from the caller's balance to that of `to`, and returns
    /// the notice of it for the host to announce. Where the caller holds less
    /// than `value` nothing moves. A credit that would pass the largest
    /// balance stops there. A transfer that goes ahead writes to both
    /// accounts, so the ledger must have room for them.
    pub fn transer(
        &mut self,
        caller: AccountId,
        to: AccountId,
        value: Balance,
    ) -> (outcome: Result<Transfer, Error>)
        requires
            old(self)@.covers(caller, value) ==> old(self)@.room_for(caller, to),
        ensures
            outcome is Ok <==> old(self)@.covers(caller, value),
            outcome matches Ok(notice) ==> notice.from == caller && notice.to == to && notice.value
                == value,
            outcome matches Err(reason) ==> reason == Error::InsufficientBallance,
            outcome is Ok ==> final(self)@ == old(self)@.transferred(caller, to, value),
            outcome is Err ==> final(self)@ == old(self)@,
            outcome is Ok && caller != to ==> final(self)@.balance_of(caller) == old(self)@.balance_of(caller)
                - value,
            outcome is Ok && caller != to ==> final(self)@.balance_of(to) == credited(
                old(self)@.balance_of(to),
                value,
            ),
            outcome is Ok && caller == to ==> final(self)@.balance_of(caller) == old(self)@.balance_of(caller),
            forall|other: AccountId| other != caller && other != to
                ==> final(self)@.balance_of(other) == old(self)@.balance_of(other),
            final(self)@.total_supply == old(self)@.total_supply,
            final(self)@.allowances == old(self)@.allowances,
    {
        match self.transfer_helper(caller, to, value) {
            Ok(()) => Ok(Transfer { from: caller, to, value }),
            Err(reason) => Err(reason),
        }
    }

    /// Moves `value` from `from` to `to`, or turns the debit down and leaves
    /// the ledger as it was.
    fn transfer_helper(
        &mut self,
        from: AccountId,
        to: AccountId,
        value: Balance,
    ) -> (outcome: Result<(), Error>)
        requires
            old(self)@.covers(from, value) ==> old(self)@.room_for(from, to),
        ensures
            outcome is Ok <==> old(self)@.covers(from, value),
            outcome matches Err(reason) ==> reason == Error::InsufficientBallance,
            outcome is Ok ==> final(self)@ == old(self)@.transferred(from, to, value),
            outcome is Err ==> final(self)@ == old(self)@,
    {
        proof {
            use_type_invariant(&*self);
        }
        let from_balance = self.balance_of(from);
        if from_balance < value {
            return Err(Error::InsufficientBallance);
        }
        proof {
            lemma_room_admits(self@, from, to, from, (from_balance - value) as Balance);
        }
        self.balances.insert(from, from_balance - value);
        let to_balance = self.balance_of(to);
        proof {
            lemma_room_admits(self@, from, to, to, credited(to_balance, value));
        }
        self.balances.insert(to, to_balance.saturating_add(value));
        Ok(())
    }

    /// Moves `value` from the balance of `from` to the caller's, as a
    /// transfer from `from` to the caller would. No allowance is asked for
    /// and none is used up: whoever calls may draw on any account. Where
    /// `from` holds less than `value` nothing moves. No notice is returned,
    /// as none is announced. A transfer that goes ahead writes to both
    /// accounts, so the ledger must have room for them.
    pub fn transer_from(
        &mut self,
        caller: AccountId,
        from: AccountId,
        value: Balance,
    ) -> (outcome: Result<(), Error>)
        requires
            old(self)@.covers(from, value) ==> old(self)@.room_for(from, caller),
        ensures
            outcome is Ok <==> old(self)@.covers(from, value),
            outcome matches Err(reason) ==> reason == Error::InsufficientBallance,
            outcome is Ok ==> final(self)@ == old(self)@.transferred(from, caller, value),
            outcome is Err ==> final(self)@ == old(self)@,
            outcome is Ok && caller != from ==> final(self)@.balance_of(from) == old(self)@.balance_of(from)
                - value,
            outcome is Ok && caller != from ==> final(self)@.balance_of(caller) == credited(
                old(self)@.balance_of(caller),
                value,
            ),
            outcome is Ok && caller == from ==> final(self)@.balance_of(from) == old(self)@.balance_of(from),
            forall|other: AccountId| other != caller && other != from
                ==> final(self)@.balance_of(other) == old(self)@.balance_of(other),
            final(self)@.total_supply == old(self)@.total_supply,
            final(self)@.allowances == old(self)@.allowances,
    {
        self.transfer_helper(from, caller, value)
    }

    /// Takes `value` off the caller's balance, or all of it where the caller
    /// holds less. The supply on record stays what it was. The caller's
    /// account is written to, so the ledger must have room for it.
    pub fn burn(&mut self, caller: AccountId, value: Balance)
        requires
            old(self)@.room_for(caller, caller),
        ensures
            final(self)@ == old(self)@.burned(caller, value),
            value > old(self)@.balance_of(caller) ==> final(self)@.balance_of(caller) == 0,
            value <= old(self)@.balance_of(caller) ==> final(self)@.balance_of(caller) == old(self)@.balance_of(
                caller,
            ) - value,
            forall|other: AccountId| other != caller
                ==> final(self)@.balance_of(other) == old(self)@.balance_of(other),
            final(self)@.total_supply == old(self)@.total_supply,
            final(self)@.allowances == old(self)@.allowances,
    {
        proof {
            use_type_invariant(&*self);
            lemma_room_admits(self@, caller, caller, caller, 0);
        }
        let balance = self.balance_of(caller);
        if balance < value {
            self.balances.insert(caller, 0);
        } else {
            self.balances.insert(caller, balance - value);
        }
    }

    /// Adds `value` to the balance of `to`, whoever asks. A credit that would
    /// pass the largest balance stops there. The supply on record stays what
    /// it was. The account is written to, so the ledger must have room for
    /// it.
    pub fn issue(&mut self, to: AccountId, value: Balance) -> (outcome: Result<(), Error>)
        requires
            old(self)@.room_for(to, to),
        ensures
            outcome is Ok,
            final(self)@ == old(self)@.issued(to, value),
            old(self)@.balance_of(to) + value <= Balance::MAX ==> final(self)@.balance_of(to) == old(
                self,
            )@.balance_of(to) + value,
            old(self)@.balance_of(to) + value > Balance::MAX ==> final(self)@.balance_of(to) == Balance::MAX,
            forall|other: AccountId| other != to
                ==> final(self)@.balance_of(other) == old(self)@.balance_of(other),
            final(self)@.total_supply == old(self)@.total_supply,
            final(self)@.allowances == old(self)@.allowances,
    {
        proof {
            use_type_invariant(&*self);
            lemma_room_admits(self@, to, to, to, 0);
        }
        let current_balance = self.balance_of(to);
        self.balances.insert(to, current_balance.saturating_add(value));
        Ok(())
    }
}

} // verus!
