//! The failures that the stores and the checks report.

use crate::requests::{TransferError, TransferFromError};
use vstd::prelude::*;

verus! {

/// Why an allowance could not be granted or spent.
#[derive(Clone, Debug, PartialEq, Eq)]
pub enum AllowanceError {
    AllowanceNotFound,
    AllowanceChanged,
    AllowanceExpired,
    BadSpender,
    BadExpiration,
    InsufficientFunds,
}

/// Why a balance could not be read or moved.
#[derive(Clone, Debug, PartialEq, Eq)]
pub enum BalanceError {
    AccountNotFound,
    InsufficientBalance,
}

/// Why a configuration was refused at setup.
#[derive(Clone, Debug, PartialEq, Eq)]
pub enum ConfigurationError {
    AdminsCantBeEmpty,
    AnonymousAdmin,
}

/// Any failure of the ledger.
#[derive(Clone, Debug, PartialEq, Eq)]
pub enum CanisterError {
    Allowance(AllowanceError),
    Balance(BalanceError),
    Configuration(ConfigurationError),
    StorageError,
    Icrc2Transfer(TransferFromError),
    Icrc1Transfer(TransferError),
}

pub type CanisterResult<T> = Result<T, CanisterError>;

impl AllowanceError {
    /// The words that describe the failure.
    pub open spec fn text(self) -> Seq<char> {
        match self {
            AllowanceError::AllowanceNotFound => "allowance error allowance not found"@,
            AllowanceError::AllowanceChanged => "allowance error allowance changed"@,
            AllowanceError::AllowanceExpired => "allowance error allowance expired"@,
            AllowanceError::BadSpender => "allowance error the spender cannot be the caller"@,
            AllowanceError::BadExpiration => "allowance error the expiration date is in the past"@,
            AllowanceError::InsufficientFunds => "allowance error insufficient funds"@,
        }
    }
}

impl BalanceError {
    /// The words that describe the failure.
    pub open spec fn text(self) -> Seq<char> {
        match self {
            BalanceError::AccountNotFound => "balance error account not found"@,
            BalanceError::InsufficientBalance => "balance error insufficient balance"@,
        }
    }
}

impl ConfigurationError {
    /// The words that describe the failure.
    pub open spec fn text(self) -> Seq<char> {
        match self {
            ConfigurationError::AdminsCantBeEmpty =>
                "configuration error there must be at least one admin"@,
            ConfigurationError::AnonymousAdmin =>
                "configuration error the canister admin cannot be anonymous"@,
        }
    }
}

impl CanisterError {
    /// The words that describe the failure.
    pub open spec fn text(self) -> Seq<char> {
        match self {
            CanisterError::Allowance(e) => e.text(),
            CanisterError::Balance(e) => e.text(),
            CanisterError::Configuration(e) => e.text(),
            CanisterError::StorageError => "storage error"@,
            CanisterError::Icrc2Transfer(_) => "icrc2 transfer error"@,
            CanisterError::Icrc1Transfer(_) => "icrc1 transfer error"@,
        }
    }

    /// The failure in words, as it is handed to a caller.
    pub fn message(&self) -> (r: String)
        ensures
            r@ == self.text(),
    {
        match self {
            CanisterError::Allowance(e) => match e {
                AllowanceError::AllowanceNotFound => "allowance error allowance not found".to_owned(),
                AllowanceError::AllowanceChanged => "allowance error allowance changed".to_owned(),
                AllowanceError::AllowanceExpired => "allowance error allowance expired".to_owned(),
                AllowanceError::BadSpender =>
                    "allowance error the spender cannot be the caller".to_owned(),
                AllowanceError::BadExpiration =>
                    "allowance error the expiration date is in the past".to_owned(),
                AllowanceError::InsufficientFunds => "allowance error insufficient funds".to_owned(),
            },
            CanisterError::Balance(e) => match e {
                BalanceError::AccountNotFound => "balance error account not found".to_owned(),
                BalanceError::InsufficientBalance => "balance error insufficient balance".to_owned(),
            },
            CanisterError::Configuration(e) => match e {
                ConfigurationError::AdminsCantBeEmpty =>
                    "configuration error there must be at least one admin".to_owned(),
                ConfigurationError::AnonymousAdmin =>
                    "configuration error the canister admin cannot be anonymous".to_owned(),
            },
            CanisterError::StorageError => "storage error".to_owned(),
            CanisterError::Icrc2Transfer(_) => "icrc2 transfer error".to_owned(),
            CanisterError::Icrc1Transfer(_) => "icrc1 transfer error".to_owned(),
        }
    }
}

} // verus!
