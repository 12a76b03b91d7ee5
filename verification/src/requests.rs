//! The requests that the ledger takes and the answers it gives.

use crate::account::Account;
use crate::amount::Amount;
use vstd::prelude::*;

verus! {

/// A request to move funds out of one of the caller's accounts.
#[derive(Clone, Debug)]
pub struct TransferArg {
    pub from_subaccount: Option<Vec<u8>>,
    pub to: Account,
    pub amount: Amount,
    pub fee: Option<Amount>,
    pub memo: Option<Vec<u8>>,
    pub created_at_time: Option<u64>,
}

/// A request to let a spender move funds out of one of the caller's accounts.
#[derive(Clone, Debug)]
pub struct ApproveArgs {
    pub from_subaccount: Option<Vec<u8>>,
    pub spender: Account,
    pub amount: Amount,
    pub expected_allowance: Option<Amount>,
    pub expires_at: Option<u64>,
    pub fee: Option<Amount>,
    pub memo: Option<Vec<u8>>,
    pub created_at_time: Option<u64>,
}

/// A request of a spender to move funds out of an owner's account.
#[derive(Clone, Debug)]
pub struct TransferFromArgs {
    pub spender_subaccount: Option<Vec<u8>>,
    pub from: Account,
    pub to: Account,
    pub amount: Amount,
    pub fee: Option<Amount>,
    pub memo: Option<Vec<u8>>,
    pub created_at_time: Option<u64>,
}

/// A question about what a spender may still move out of an account.
#[derive(Clone, Debug)]
pub struct AllowanceArgs {
    pub account: Account,
    pub spender: Account,
}

/// What a spender may still move, and until when.
#[derive(Clone, Debug, PartialEq, Eq)]
pub struct Allowance {
    pub allowance: Amount,
    pub expires_at: Option<u64>,
}

/// Why a transfer was refused.
#[derive(Clone, Debug, PartialEq, Eq)]
pub enum TransferError {
    BadFee { expected_fee: Amount },
    InsufficientFunds { balance: Amount },
    TooOld,
    CreatedInFuture { ledger_time: u64 },
    GenericError { error_code: u64, message: String },
}

/// Why an approval was refused.
#[derive(Clone, Debug, PartialEq, Eq)]
pub enum ApproveError {
    BadFee { expected_fee: Amount },
    InsufficientFunds { balance: Amount },
    AllowanceChanged { current_allowance: Amount },
    Expired { ledger_time: u64 },
    TooOld,
    CreatedInFuture { ledger_time: u64 },
    GenericError { error_code: u64, message: String },
}

/// Why a transfer by a spender was refused.
#[derive(Clone, Debug, PartialEq, Eq)]
pub enum TransferFromError {
    BadFee { expected_fee: Amount },
    InsufficientFunds { balance: Amount },
    InsufficientAllowance { allowance: Amount },
    TooOld,
    CreatedInFuture { ledger_time: u64 },
    GenericError { error_code: u64, message: String },
}

/// What a refusal says, whichever request it answers.
pub ghost enum Rejection {
    BadFee { expected_fee: nat },
    InsufficientFunds { balance: nat },
    InsufficientAllowance { allowance: nat },
    AllowanceChanged { current_allowance: nat },
    Expired { ledger_time: u64 },
    TooOld,
    CreatedInFuture { ledger_time: u64 },
    GenericError { error_code: u64, message: Seq<char> },
}

impl View for TransferError {
    type V = Rejection;

    open spec fn view(&self) -> Rejection {
        match *self {
            TransferError::BadFee { expected_fee } => Rejection::BadFee {
                expected_fee: expected_fee@,
            },
            TransferError::InsufficientFunds { balance } => Rejection::InsufficientFunds {
                balance: balance@,
            },
            TransferError::TooOld => Rejection::TooOld,
            TransferError::CreatedInFuture { ledger_time } => Rejection::CreatedInFuture {
                ledger_time,
            },
            TransferError::GenericError { error_code, message } => Rejection::GenericError {
                error_code,
                message: message@,
            },
        }
    }
}

impl View for ApproveError {
    type V = Rejection;

    open spec fn view(&self) -> Rejection {
        match *self {
            ApproveError::BadFee { expected_fee } => Rejection::BadFee {
                expected_fee: expected_fee@,
            },
            ApproveError::InsufficientFunds { balance } => Rejection::InsufficientFunds {
                balance: balance@,
            },
            ApproveError::AllowanceChanged { current_allowance } => Rejection::AllowanceChanged {
                current_allowance: current_allowance@,
            },
            ApproveError::Expired { ledger_time } => Rejection::Expired { ledger_time },
            ApproveError::TooOld => Rejection::TooOld,
            ApproveError::CreatedInFuture { ledger_time } => Rejection::CreatedInFuture {
                ledger_time,
            },
            ApproveError::GenericError { error_code, message } => Rejection::GenericError {
                error_code,
                message: message@,
            },
        }
    }
}

impl View for TransferFromError {
    type V = Rejection;

    open spec fn view(&self) -> Rejection {
        match *self {
            TransferFromError::BadFee { expected_fee } => Rejection::BadFee {
                expected_fee: expected_fee@,
            },
            TransferFromError::InsufficientFunds { balance } => Rejection::InsufficientFunds {
                balance: balance@,
            },
            TransferFromError::InsufficientAllowance { allowance } =>
                Rejection::InsufficientAllowance { allowance: allowance@ },
            TransferFromError::TooOld => Rejection::TooOld,
            TransferFromError::CreatedInFuture { ledger_time } => Rejection::CreatedInFuture {
                ledger_time,
            },
            TransferFromError::GenericError { error_code, message } => Rejection::GenericError {
                error_code,
                message: message@,
            },
        }
    }
}

/// The subaccount's bytes as a value, if there is one.
pub open spec fn subaccount_view(s: Option<Vec<u8>>) -> Option<Seq<u8>> {
    match s {
        Some(b) => Some(b@),
        None => None,
    }
}

/// The amount's number, if there is one.
pub open spec fn amount_view(a: Option<Amount>) -> Option<nat> {
    match a {
        Some(x) => Some(x@),
        None => None,
    }
}

/// The amount, if there is one, is in its shortest form.
pub open spec fn amount_wf(a: Option<Amount>) -> bool {
    a matches Some(x) ==> x.wf()
}

/// A copy of an optional byte string.
pub fn copy_bytes(s: &Option<Vec<u8>>) -> (r: Option<Vec<u8>>)
    ensures
        subaccount_view(r) == subaccount_view(*s),
{
    match s {
        Some(b) => Some(b.clone()),
        None => None,
    }
}

impl ApproveArgs {
    /// The spender is an account, the subaccount has 32 bytes and every amount
    /// is in its shortest form.
    pub open spec fn wf(&self) -> bool {
        &&& self.spender.wf()
        &&& self.from_subaccount matches Some(s) ==> s@.len() == 32
        &&& self.amount.wf()
        &&& amount_wf(self.expected_allowance)
        &&& amount_wf(self.fee)
    }
}

impl TransferArg {
    pub open spec fn wf(&self) -> bool {
        &&& self.to.wf()
        &&& self.from_subaccount matches Some(s) ==> s@.len() == 32
        &&& self.amount.wf()
        &&& amount_wf(self.fee)
    }
}

impl TransferFromArgs {
    pub open spec fn wf(&self) -> bool {
        &&& self.from.wf()
        &&& self.to.wf()
        &&& self.spender_subaccount matches Some(s) ==> s@.len() == 32
        &&& self.amount.wf()
        &&& amount_wf(self.fee)
    }
}

} // verus!
