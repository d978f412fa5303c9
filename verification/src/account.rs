//! The identity of a party to the ledger.

use vstd::prelude::*;
use vstd::std_specs::cmp::PartialEqSpecImpl;
use vstd::std_specs::convert::FromSpecImpl;

verus! {

/// The unit in which every balance is counted.
pub type Balance = u128;

/// A party to the ledger, known by 32 bytes. Two identities are the same
/// party exactly when their bytes agree; no order among parties matters.
#[derive(Clone, Copy, Debug, Eq, Hash)]
pub struct AccountId {
    pub bytes: [u8; 32],
}

impl PartialEq for AccountId {
    fn eq(&self, other: &AccountId) -> (same: bool) {
        let mut at: usize = 0;
        while at < 32
            invariant
                at <= 32,
                forall|i: int| 0 <= i < at ==> self.bytes[i] == other.bytes[i],
            decreases 32 - at,
        {
            if self.bytes[at] != other.bytes[at] {
                return false;
            }
            at += 1;
        }
        assert(self.bytes =~= other.bytes);
        true
    }
}

impl PartialEqSpecImpl for AccountId {
    open spec fn obeys_eq_spec() -> bool {
        true
    }

    open spec fn eq_spec(&self, other: &AccountId) -> bool {
        *self == *other
    }
}

impl From<[u8; 32]> for AccountId {
    fn from(bytes: [u8; 32]) -> (account: AccountId) {
        AccountId { bytes }
    }
}

impl FromSpecImpl<[u8; 32]> for AccountId {
    open spec fn obeys_from_spec() -> bool {
        true
    }

    open spec fn from_spec(bytes: [u8; 32]) -> AccountId {
        AccountId { bytes }
    }
}

} // verus!
