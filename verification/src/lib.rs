//! A fungible-token ledger: balances per account, transfers between accounts,
//! burning and issuing, with every operation specified over a mathematical
//! model of the ledger and proved against it.
//!
//! A debit that the account cannot cover is turned down and changes nothing.
//! A credit never wraps: it stops at the largest balance there is. The supply
//! on record is the one the ledger was opened with, whatever is burnt or
//! issued later.
//!
//! - `account`: the identity of a party.
//! - `model`: the ledger as a mathematical value, and what each operation
//!   makes of it.
//! - `laws`: what holds of the operations on every ledger.
//! - `ledger`: the ledger itself, with its operations.
//! - `table`: the two tables, kept in `ink_storage`'s hash map; the one
//!   module whose statements are taken on trust.

pub mod account;
pub mod laws;
pub mod ledger;
pub mod model;
pub mod table;

pub use account::{AccountId, Balance};
pub use ledger::Erc20;
pub use model::{Error, Ledger, Transfer};
