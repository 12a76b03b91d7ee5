//! The settings of the token: its names, its fee and where fees go.

use crate::account::{Account, AccountView};
use vstd::prelude::*;

verus! {

/// The scalar settings of the ledger.
pub struct Configuration {
    pub minting_account: Account,
    pub name: String,
    pub symbol: String,
    pub decimals: u8,
    pub fee: u64,
    pub logo: String,
}

impl Configuration {
    /// The settings before any was set: the anonymous identity as minting
    /// account, the name "ICRC-2", the symbol "ICRC", 8 decimals, no fee and
    /// no logo.
    pub fn new() -> (r: Configuration)
        ensures
            r.minting_account@ == (AccountView { owner: seq![4u8], subaccount: None }),
            r.name@ == "ICRC-2"@,
            r.symbol@ == "ICRC"@,
            r.decimals == 8,
            r.fee == 0,
            r.logo@ == ""@,
    {
        let mut owner: Vec<u8> = Vec::new();
        owner.push(4u8);
        let minting_account = Account { owner, subaccount: None };
        assert(minting_account@.owner =~= seq![4u8]);
        Configuration {
            minting_account,
            name: "ICRC-2".to_owned(),
            symbol: "ICRC".to_owned(),
            decimals: 8,
            fee: 0,
            logo: "".to_owned(),
        }
    }

    pub fn set_minting_account(&mut self, minting_account: Account)
        ensures
            *final(self) == (Configuration { minting_account, ..*old(self) }),
    {
        self.minting_account = minting_account;
    }

    pub fn get_minting_account(&self) -> (r: Account)
        ensures
            r@ == self.minting_account@,
    {
        self.minting_account.clone()
    }

    pub fn set_name(&mut self, name: String)
        ensures
            *final(self) == (Configuration { name, ..*old(self) }),
    {
        self.name = name;
    }

    pub fn get_name(&self) -> (r: String)
        ensures
            r@ == self.name@,
    {
        self.name.clone()
    }

    pub fn set_symbol(&mut self, symbol: String)
        ensures
            *final(self) == (Configuration { symbol, ..*old(self) }),
    {
        self.symbol = symbol;
    }

    pub fn get_symbol(&self) -> (r: String)
        ensures
            r@ == self.symbol@,
    {
        self.symbol.clone()
    }

    pub fn set_decimals(&mut self, decimals: u8)
        ensures
            *final(self) == (Configuration { decimals, ..*old(self) }),
    {
        self.decimals = decimals;
    }

    pub fn get_decimals(&self) -> (r: u8)
        ensures
            r == self.decimals,
    {
        self.decimals
    }

    pub fn set_fee(&mut self, fee: u64)
        ensures
            *final(self) == (Configuration { fee, ..*old(self) }),
    {
        self.fee = fee;
    }

    pub fn get_fee(&self) -> (r: u64)
        ensures
            r == self.fee,
    {
        self.fee
    }

    pub fn set_logo(&mut self, logo: String)
        ensures
            *final(self) == (Configuration { logo, ..*old(self) }),
    {
        self.logo = logo;
    }

    pub fn get_logo(&self) -> (r: String)
        ensures
            r@ == self.logo@,
    {
        self.logo.clone()
    }
}

} // verus!
