//! What holds of the ledger's operations, whatever the ledger and whoever the
//! parties: each law is stated over the model and proved from it.

use vstd::prelude::*;
use crate::account::{AccountId, Balance};
use crate::model::{burnt, credited, Ledger};

verus! {

/// A ledger that has just been opened credits its creator with the whole
/// supply, and every other account with nothing.
pub proof fn law_opening_credits_creator(creator: AccountId, other: AccountId, initial_supply: Balance)
    ensures
        Ledger::opened(creator, initial_supply).total_supply == initial_supply,
        Ledger::opened(creator, initial_supply).balance_of(creator) == initial_supply,
        other != creator ==> Ledger::opened(creator, initial_supply).balance_of(other) == 0,
{
}

/// A transfer between two accounts takes exactly `value` from the sender and
/// gives the receiver `value` more, up to the largest balance there is.
pub proof fn law_transfer_moves_value(ledger: Ledger, from: AccountId, to: AccountId, value: Balance)
    requires
        ledger.covers(from, value),
        from != to,
    ensures
        ledger.transferred(from, to, value).balance_of(from) == ledger.balance_of(from) - value,
        ledger.transferred(from, to, value).balance_of(to) == credited(ledger.balance_of(to), value),
        ledger.balance_of(to) + value <= Balance::MAX ==> ledger.transferred(from, to, value).balance_of(to)
            == ledger.balance_of(to) + value,
        ledger.balance_of(to) + value > Balance::MAX ==> ledger.transferred(from, to, value).balance_of(to)
            == Balance::MAX,
{
}

/// A transfer between two accounts leaves the sum of what they hold as it
/// was, unless the credit was stopped at the largest balance.
pub proof fn law_transfer_conserves(ledger: Ledger, from: AccountId, to: AccountId, value: Balance)
    requires
        ledger.covers(from, value),
        from != to,
        ledger.balance_of(to) + value <= Balance::MAX,
    ensures
        ledger.transferred(from, to, value).balance_of(from) + ledger.transferred(
            from,
            to,
            value,
        ).balance_of(to) == ledger.balance_of(from) + ledger.balance_of(to),
{
}

/// A transfer from an account to itself changes no balance at all.
pub proof fn law_transfer_to_self_is_neutral(
    ledger: Ledger,
    who: AccountId,
    value: Balance,
    account: AccountId,
)
    requires
        ledger.covers(who, value),
    ensures
        ledger.transferred(who, who, value).balance_of(account) == ledger.balance_of(account),
{
}

/// A transfer changes the balance of no account but the sender's and the
/// receiver's.
pub proof fn law_transfer_leaves_others(
    ledger: Ledger,
    from: AccountId,
    to: AccountId,
    value: Balance,
    other: AccountId,
)
    requires
        other != from,
        other != to,
    ensures
        ledger.transferred(from, to, value).balance_of(other) == ledger.balance_of(other),
{
}

/// Burning more than an account holds leaves it with nothing; burning no
/// more than it holds takes exactly `value` off. No other account changes.
pub proof fn law_burn_takes_or_empties(ledger: Ledger, who: AccountId, value: Balance, other: AccountId)
    ensures
        ledger.burned(who, value).balance_of(who) == burnt(ledger.balance_of(who), value),
        value > ledger.balance_of(who) ==> ledger.burned(who, value).balance_of(who) == 0,
        value <= ledger.balance_of(who) ==> ledger.burned(who, value).balance_of(who) == ledger.balance_of(
            who,
        ) - value,
        other != who ==> ledger.burned(who, value).balance_of(other) == ledger.balance_of(other),
{
}

/// Issuing gives the receiver `value` more, up to the largest balance there
/// is, and changes no other account.
pub proof fn law_issue_adds_value(ledger: Ledger, to: AccountId, value: Balance, other: AccountId)
    ensures
        ledger.issued(to, value).balance_of(to) == credited(ledger.balance_of(to), value),
        ledger.balance_of(to) + value <= Balance::MAX ==> ledger.issued(to, value).balance_of(to)
            == ledger.balance_of(to) + value,
        ledger.balance_of(to) + value > Balance::MAX ==> ledger.issued(to, value).balance_of(to)
            == Balance::MAX,
        other != to ==> ledger.issued(to, value).balance_of(other) == ledger.balance_of(other),
{
}

/// No transfer, burn or issue touches the supply on record or any allowance.
pub proof fn law_supply_and_allowances_stand(
    ledger: Ledger,
    first: AccountId,
    second: AccountId,
    value: Balance,
)
    ensures
        ledger.transferred(first, second, value).total_supply == ledger.total_supply,
        ledger.transferred(first, second, value).allowances == ledger.allowances,
        ledger.burned(first, value).total_supply == ledger.total_supply,
        ledger.burned(first, value).allowances == ledger.allowances,
        ledger.issued(first, value).total_supply == ledger.total_supply,
        ledger.issued(first, value).allowances == ledger.allowances,
{
}

} // verus!
