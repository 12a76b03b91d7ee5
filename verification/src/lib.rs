//! Accounting core of an ICRC-2 style token ledger: account balances, delegated
//! spend allowances, the byte encoding of every stored record, and the checks
//! that gate each mutating request.

use vstd::prelude::*;

pub mod account;
pub mod account_balance;
pub mod amount;
pub mod balance;
pub mod canister;
pub mod codec;
pub mod configuration;
pub mod conservation;
pub mod errors;
pub mod inspect;
pub mod key;
pub mod requests;
pub mod spend;
pub mod spend_allowance;
pub mod supply;
pub mod table;

verus! {

/// A standard that the ledger follows, with the place where it is laid down.
#[derive(Clone, Debug)]
pub struct TokenExtension {
    pub name: String,
    pub url: String,
}

impl TokenExtension {
    /// The ICRC-1 standard.
    pub fn icrc1() -> (r: Self)
        ensures
            r.name@ == "ICRC-1"@,
            r.url@ == "https://github.com/dfinity/ICRC-1"@,
    {
        Self { name: "ICRC-1".to_owned(), url: "https://github.com/dfinity/ICRC-1".to_owned() }
    }

    /// The ICRC-2 standard.
    pub fn icrc2() -> (r: Self)
        ensures
            r.name@ == "ICRC-2"@,
            r.url@ == "https://github.com/dfinity/ICRC-1"@,
    {
        Self { name: "ICRC-2".to_owned(), url: "https://github.com/dfinity/ICRC-1".to_owned() }
    }
}

} // verus!
