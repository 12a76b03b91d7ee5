//! The three operations of the ledger: transfer, approve, and transfer by a
//! spender, each checked first and then carried out on the stores.

use crate::account::{Account, AccountView};
use crate::account_balance::Balance as AccountBalance;
use crate::amount::Amount;
use crate::balance::{granted, granted_sum, grants_wf, moved, touched, transferred, Balance};
use crate::configuration::Configuration;
use crate::errors::{AllowanceError, BalanceError, CanisterError};
use crate::inspect::{approve_refusal, transfer_from_refusal, transfer_refusal, Inspect};
use crate::key::allowance_key;
use crate::requests::{
    copy_bytes, Allowance, AllowanceArgs, ApproveArgs, ApproveError, Rejection, TransferArg,
    TransferError, TransferFromArgs, TransferFromError,
};
use crate::spend::SpendView;
use crate::spend_allowance::{
    account_of, approve_outcome, record_at, spend_outcome, SpendAllowance,
};
use crate::supply::amount_at;
use crate::table::Table;
use crate::TokenExtension;
use vstd::prelude::*;

verus! {

/// What the ledger is set up with.
#[derive(Clone, Debug)]
pub struct InitArgs {
    pub accounts: Vec<(Account, Amount)>,
    pub decimals: u8,
    pub fee: u64,
    pub logo: String,
    pub minting_account: Account,
    pub name: String,
    pub symbol: String,
    pub total_supply: Amount,
}

/// A value of the token's metadata.
#[derive(Clone, Debug, PartialEq, Eq)]
pub enum MetadataValue {
    Nat(Amount),
    Text(String),
}

/// The ledger: its settings, its balances and its allowances.
pub struct Icrc2Canister {
    pub configuration: Configuration,
    pub balances: Balance,
    pub allowances: SpendAllowance,
}

/// The fee that a request pays: the one it offers, else the configured one.
pub open spec fn effective_fee(fee: Option<Amount>, default_fee: u64) -> nat {
    match fee {
        Some(f) => f@,
        None => default_fee as nat,
    }
}

/// What a request comes to: the answer and the balances afterwards.
pub ghost struct Outcome {
    pub answer: Result<nat, Rejection>,
    pub balances: Map<Seq<u8>, nat>,
    pub allowances: Map<Seq<u8>, SpendView>,
}

/// What a transfer comes to. A refused request changes nothing. A transfer
/// to the minting account is a burn and pays no fee; any other moves the
/// amount and then the fee. A source that holds too little is told what it
/// holds.
pub open spec fn transfer_outcome(
    m: Map<Seq<u8>, nat>,
    al: Map<Seq<u8>, SpendView>,
    minting: AccountView,
    default_fee: u64,
    caller: Seq<u8>,
    args: TransferArg,
    now: u64,
) -> Outcome {
    let from = account_of(caller, args.from_subaccount).key();
    let held = amount_at(m, from);
    let fee = effective_fee(args.fee, default_fee);
    match transfer_refusal(args, default_fee, now) {
        Some(why) => Outcome { answer: Err(why), balances: m, allowances: al },
        None => if args.to@ == minting {
            if held < args.amount@ {
                Outcome {
                    answer: Err(Rejection::InsufficientFunds { balance: held }),
                    balances: touched(m, from),
                    allowances: al,
                }
            } else {
                Outcome {
                    answer: Ok(1),
                    balances: moved(m, from, minting.key(), args.amount@),
                    allowances: al,
                }
            }
        } else if held < args.amount@ + fee {
            Outcome {
                answer: Err(Rejection::InsufficientFunds { balance: held }),
                balances: m,
                allowances: al,
            }
        } else {
            Outcome {
                answer: Ok(1),
                balances: transferred(m, from, args.to@.key(), minting.key(), args.amount@, fee),
                allowances: al,
            }
        },
    }
}

/// What the spender may spend according to the record, if there is one.
pub open spec fn allowed(rec: Option<SpendView>) -> nat {
    match rec {
        Some(v) => v.amount,
        None => 0,
    }
}

/// What an approval comes to. A refused request changes nothing. The fee is
/// moved from the caller to the minting account first, and stays there also
/// where the allowance store then refuses the approval.
pub open spec fn approval_outcome(
    m: Map<Seq<u8>, nat>,
    al: Map<Seq<u8>, SpendView>,
    minting: AccountView,
    default_fee: u64,
    caller: Seq<u8>,
    args: ApproveArgs,
    now: u64,
) -> Outcome {
    let owner = account_of(caller, args.from_subaccount);
    let key = allowance_key(owner, args.spender@);
    let held = amount_at(m, owner.key());
    let fee = effective_fee(args.fee, default_fee);
    let paid = moved(m, owner.key(), minting.key(), fee);
    match approve_refusal(caller, args, default_fee, now) {
        Some(why) => Outcome { answer: Err(why), balances: m, allowances: al },
        None => if held < fee {
            Outcome {
                answer: Err(Rejection::InsufficientFunds { balance: held }),
                balances: touched(m, owner.key()),
                allowances: al,
            }
        } else {
            match approve_outcome(al, caller, args, now) {
                Ok(rec) => Outcome {
                    answer: Ok(rec.amount),
                    balances: paid,
                    allowances: al.insert(key, rec),
                },
                Err(CanisterError::Allowance(AllowanceError::AllowanceChanged)) => Outcome {
                    answer: Err(
                        Rejection::AllowanceChanged { current_allowance: allowed(record_at(al, key)) },
                    ),
                    balances: paid,
                    allowances: al,
                },
                Err(CanisterError::Allowance(AllowanceError::BadExpiration)) => Outcome {
                    answer: Err(Rejection::TooOld),
                    balances: paid,
                    allowances: al,
                },
                Err(e) => Outcome {
                    answer: Err(Rejection::GenericError { error_code: 0, message: e.text() }),
                    balances: paid,
                    allowances: al,
                },
            }
        },
    }
}

/// What a transfer by a spender comes to. A refused request changes nothing,
/// and neither does one for which the owner holds less than the amount, the
/// spender less than the fee, or the allowance is too small or expired. Else
/// the allowance is spent, then the spender pays the fee, then the amount is
/// moved; where that last move fails, the first two stand.
pub open spec fn transfer_from_outcome(
    m: Map<Seq<u8>, nat>,
    al: Map<Seq<u8>, SpendView>,
    minting: AccountView,
    default_fee: u64,
    caller: Seq<u8>,
    args: TransferFromArgs,
    now: u64,
) -> Outcome {
    let spender = account_of(caller, args.spender_subaccount);
    let key = allowance_key(args.from@, spender);
    let rec = record_at(al, key);
    let from = args.from@.key();
    let fee = effective_fee(args.fee, default_fee);
    let paid = moved(m, spender.key(), minting.key(), fee);
    match transfer_from_refusal(args, default_fee, now) {
        Some(why) => Outcome { answer: Err(why), balances: m, allowances: al },
        None => if amount_at(m, from) < args.amount@ {
            Outcome {
                answer: Err(Rejection::InsufficientFunds { balance: amount_at(m, from) }),
                balances: m,
                allowances: al,
            }
        } else if amount_at(m, spender.key()) < fee {
            Outcome {
                answer: Err(Rejection::InsufficientFunds { balance: amount_at(m, spender.key()) }),
                balances: m,
                allowances: al,
            }
        } else if allowed(rec) < args.amount@ {
            Outcome {
                answer: Err(Rejection::InsufficientAllowance { allowance: allowed(rec) }),
                balances: m,
                allowances: al,
            }
        } else if rec.is_some() && rec.unwrap().expires_at.is_some()
            && rec.unwrap().expires_at.unwrap() < now {
            Outcome { answer: Err(Rejection::TooOld), balances: m, allowances: al }
        } else {
            match spend_outcome(rec, args.amount@, now) {
                Err(e) => Outcome {
                    answer: Err(Rejection::GenericError { error_code: 0, message: e.text() }),
                    balances: m,
                    allowances: al,
                },
                Ok(left) => if amount_at(paid, from) < args.amount@ {
                    Outcome {
                        answer: Err(Rejection::InsufficientFunds { balance: amount_at(paid, from) }),
                        balances: touched(paid, from),
                        allowances: al.insert(key, left),
                    }
                } else {
                    Outcome {
                        answer: Ok(1),
                        balances: moved(paid, from, args.to@.key(), args.amount@),
                        allowances: al.insert(key, left),
                    }
                },
            }
        },
    }
}

impl Icrc2Canister {
    /// The stores are well formed and the minting account is an account.
    pub open spec fn wf(&self) -> bool {
        &&& self.balances.wf()
        &&& self.allowances.wf()
        &&& self.configuration.minting_account.wf()
    }

    /// A ledger that was not set up yet: the settings at their defaults, no
    /// balances and no allowances.
    pub fn new() -> (r: Icrc2Canister)
        ensures
            r.wf(),
            r.configuration.minting_account@ == (AccountView {
                owner: seq![4u8],
                subaccount: None,
            }),
            r.configuration.name@ == "ICRC-2"@,
            r.configuration.symbol@ == "ICRC"@,
            r.configuration.decimals == 8,
            r.configuration.fee == 0,
            r.configuration.logo@ == ""@,
            r.balances@ == Map::<Seq<u8>, nat>::empty(),
            r.allowances@ == Map::<Seq<u8>, SpendView>::empty(),
    {
        let (balances, allowances) = Table::pair();
        Icrc2Canister {
            configuration: Configuration::new(),
            balances: Balance::new(balances),
            allowances: SpendAllowance::new(allowances),
        }
    }

    /// Sets the ledger up: the settings as given, the balances as granted,
    /// the rest of the total supply in the canister's own account, and no
    /// allowances.
    pub fn init(data: InitArgs, canister_account: Account) -> (r: Icrc2Canister)
        requires
            data.minting_account.wf(),
            canister_account.wf(),
            data.total_supply.wf(),
            data.total_supply.size() < AccountBalance::MAX_SIZE,
            grants_wf(data.accounts@),
            granted_sum(data.accounts@, data.accounts@.len() as int) <= data.total_supply@,
        ensures
            r.wf(),
            r.configuration.minting_account == data.minting_account,
            r.configuration.decimals == data.decimals,
            r.configuration.fee == data.fee,
            r.configuration.name == data.name,
            r.configuration.symbol == data.symbol,
            r.configuration.logo == data.logo,
            r.balances.wallet() == canister_account@,
            r.balances@ == granted(data.accounts@, data.accounts@.len() as int).insert(
                canister_account@.key(),
                (data.total_supply@ - granted_sum(data.accounts@, data.accounts@.len() as int)) as nat,
            ),
            r.allowances@ == Map::<Seq<u8>, SpendView>::empty(),
    {
        let mut configuration = Configuration::new();
        configuration.set_minting_account(data.minting_account);
        configuration.set_decimals(data.decimals);
        configuration.set_fee(data.fee);
        configuration.set_name(data.name);
        configuration.set_symbol(data.symbol);
        configuration.set_logo(data.logo);
        let (balance_table, allowance_table) = Table::pair();
        let mut balances = Balance::new(balance_table);
        balances.init_balances(canister_account, data.total_supply, data.accounts);
        Icrc2Canister { configuration, balances, allowances: SpendAllowance::new(allowance_table) }
    }

    pub fn icrc1_name(&self) -> (r: String)
        ensures
            r@ == self.configuration.name@,
    {
        self.configuration.get_name()
    }

    pub fn icrc1_symbol(&self) -> (r: String)
        ensures
            r@ == self.configuration.symbol@,
    {
        self.configuration.get_symbol()
    }

    pub fn icrc1_decimals(&self) -> (r: u8)
        ensures
            r == self.configuration.decimals,
    {
        self.configuration.get_decimals()
    }

    pub fn icrc1_fee(&self) -> (r: Amount)
        ensures
            r.wf(),
            r@ == self.configuration.fee,
    {
        Amount::from_u64(self.configuration.get_fee())
    }

    /// The token's metadata: symbol, name, decimals, fee and logo, in this
    /// order, each under its name.
    pub fn icrc1_metadata(&self) -> (r: Vec<(String, MetadataValue)>)
        ensures
            r@.len() == 5,
            r@[0].0@ == "icrc1:symbol"@,
            r@[0].1 matches MetadataValue::Text(s) && s@ == self.configuration.symbol@,
            r@[1].0@ == "icrc1:name"@,
            r@[1].1 matches MetadataValue::Text(s) && s@ == self.configuration.name@,
            r@[2].0@ == "icrc1:decimals"@,
            r@[2].1 matches MetadataValue::Nat(n) && n@ == self.configuration.decimals,
            r@[3].0@ == "icrc1:fee"@,
            r@[3].1 matches MetadataValue::Nat(n) && n@ == self.configuration.fee,
            r@[4].0@ == "icrc1:logo"@,
            r@[4].1 matches MetadataValue::Text(s) && s@ == self.configuration.logo@,
    {
        let mut out: Vec<(String, MetadataValue)> = Vec::new();
        out.push(("icrc1:symbol".to_owned(), MetadataValue::Text(self.icrc1_symbol())));
        out.push(("icrc1:name".to_owned(), MetadataValue::Text(self.icrc1_name())));
        let decimals: u64 = self.icrc1_decimals() as u64;
        out.push(("icrc1:decimals".to_owned(), MetadataValue::Nat(Amount::from_u64(decimals))));
        out.push(("icrc1:fee".to_owned(), MetadataValue::Nat(self.icrc1_fee())));
        out.push(("icrc1:logo".to_owned(), MetadataValue::Text(self.configuration.get_logo())));
        out
    }

    /// The amounts in circulation: every balance but the minting account's.
    pub fn icrc1_total_supply(&self) -> (r: Amount)
        requires
            self.wf(),
        ensures
            r.wf(),
            r@ == self.balances.supply(self.configuration.minting_account@),
    {
        self.balances.total_supply(&self.configuration.minting_account)
    }

    pub fn icrc1_minting_account(&self) -> (r: Account)
        ensures
            r@ == self.configuration.minting_account@,
    {
        self.configuration.get_minting_account()
    }

    /// What the account holds: zero for one that the ledger has never seen.
    pub fn icrc1_balance_of(&self, account: &Account) -> (r: Amount)
        requires
            self.wf(),
            account.wf(),
        ensures
            r.wf(),
            r@ == self.balances.balance(account@),
    {
        self.balances.balance_of(account)
    }

    /// Moves funds out of one of the caller's accounts.
    pub fn icrc1_transfer(&mut self, caller: &Vec<u8>, transfer_args: TransferArg, now: u64) -> (r:
        Result<Amount, TransferError>)
        requires
            old(self).wf(),
            caller@.len() <= 29,
            transfer_args.wf(),
        ensures
            final(self).wf(),
            final(self).configuration == old(self).configuration,
            r matches Ok(n) ==> Ok::<nat, Rejection>(n@) == transfer_outcome(
                old(self).balances@,
                old(self).allowances@,
                old(self).configuration.minting_account@,
                old(self).configuration.fee,
                caller@,
                transfer_args,
                now,
            ).answer,
            r matches Err(e) ==> Err::<nat, Rejection>(e@) == transfer_outcome(
                old(self).balances@,
                old(self).allowances@,
                old(self).configuration.minting_account@,
                old(self).configuration.fee,
                caller@,
                transfer_args,
                now,
            ).answer,
            final(self).balances@ == transfer_outcome(
                old(self).balances@,
                old(self).allowances@,
                old(self).configuration.minting_account@,
                old(self).configuration.fee,
                caller@,
                transfer_args,
                now,
            ).balances,
            final(self).allowances@ == old(self).allowances@,
    {
        let default_fee = self.configuration.get_fee();
        match Inspect::inspect_transfer(&transfer_args, default_fee, now) {
            Err(e) => {
                return Err(e);
            },
            Ok(()) => {},
        }
        let fee = match &transfer_args.fee {
            Some(f) => f.clone(),
            None => Amount::from_u64(default_fee),
        };
        let from_account = Account {
            owner: caller.clone(),
            subaccount: copy_bytes(&transfer_args.from_subaccount),
        };
        let minting = self.configuration.get_minting_account();
        let done = if transfer_args.to.same(&minting) {
            self.balances.transfer_wno_fees(&from_account, &transfer_args.to, &transfer_args.amount)
        } else {
            self.balances.transfer(
                &from_account,
                &transfer_args.to,
                &transfer_args.amount,
                &fee,
                &minting,
            )
        };
        match done {
            Ok(()) => Ok(Amount::from_u64(1)),
            Err(CanisterError::Balance(BalanceError::InsufficientBalance)) => Err(
                TransferError::InsufficientFunds {
                    balance: self.balances.balance_of(&from_account),
                },
            ),
            Err(err) => Err(TransferError::GenericError { error_code: 3, message: err.message() }),
        }
    }

    /// The standards that the ledger follows.
    pub fn icrc1_supported_standards() -> (r: Vec<TokenExtension>)
        ensures
            r@.len() == 2,
            r@[0].name@ == "ICRC-1"@,
            r@[0].url@ == "https://github.com/dfinity/ICRC-1"@,
            r@[1].name@ == "ICRC-2"@,
            r@[1].url@ == "https://github.com/dfinity/ICRC-1"@,
    {
        let mut out: Vec<TokenExtension> = Vec::new();
        out.push(TokenExtension::icrc1());
        out.push(TokenExtension::icrc2());
        out
    }

    /// Lets a spender move funds out of one of the caller's accounts, for a
    /// fee that the caller pays at once.
    pub fn icrc2_approve(&mut self, caller: &Vec<u8>, args: ApproveArgs, now: u64) -> (r: Result<
        Amount,
        ApproveError,
    >)
        requires
            old(self).wf(),
            caller@.len() <= 29,
            args.wf(),
        ensures
            final(self).wf(),
            final(self).configuration == old(self).configuration,
            r matches Ok(n) ==> Ok::<nat, Rejection>(n@) == approval_outcome(
                old(self).balances@,
                old(self).allowances@,
                old(self).configuration.minting_account@,
                old(self).configuration.fee,
                caller@,
                args,
                now,
            ).answer,
            r matches Err(e) ==> Err::<nat, Rejection>(e@) == approval_outcome(
                old(self).balances@,
                old(self).allowances@,
                old(self).configuration.minting_account@,
                old(self).configuration.fee,
                caller@,
                args,
                now,
            ).answer,
            final(self).balances@ == approval_outcome(
                old(self).balances@,
                old(self).allowances@,
                old(self).configuration.minting_account@,
                old(self).configuration.fee,
                caller@,
                args,
                now,
            ).balances,
            final(self).allowances@ == approval_outcome(
                old(self).balances@,
                old(self).allowances@,
                old(self).configuration.minting_account@,
                old(self).configuration.fee,
                caller@,
                args,
                now,
            ).allowances,
    {
        let default_fee = self.configuration.get_fee();
        match Inspect::inspect_icrc2_approve(caller, &args, default_fee, now) {
            Err(e) => {
                return Err(e);
            },
            Ok(()) => {},
        }
        let caller_account = Account {
            owner: caller.clone(),
            subaccount: copy_bytes(&args.from_subaccount),
        };
        let current_allowance = self.allowances.get_allowance(&caller_account, &args.spender).0;
        let fee = match &args.fee {
            Some(f) => f.clone(),
            None => Amount::from_u64(default_fee),
        };
        let minting = self.configuration.get_minting_account();
        match self.balances.transfer_wno_fees(&caller_account, &minting, &fee) {
            Ok(()) => {},
            Err(_) => {
                return Err(
                    ApproveError::InsufficientFunds {
                        balance: self.balances.balance_of(&caller_account),
                    },
                );
            },
        }
        match self.allowances.approve_spend(caller, args, now) {
            Ok(amount) => Ok(amount),
            Err(CanisterError::Allowance(AllowanceError::AllowanceChanged)) => Err(
                ApproveError::AllowanceChanged { current_allowance },
            ),
            Err(CanisterError::Allowance(AllowanceError::BadExpiration)) => Err(
                ApproveError::TooOld,
            ),
            Err(err) => Err(ApproveError::GenericError { error_code: 0, message: err.message() }),
        }
    }

    /// Moves funds out of an owner's account on the word of the caller, who
    /// is the spender and pays the fee.
    pub fn icrc2_transfer_from(&mut self, caller: &Vec<u8>, args: TransferFromArgs, now: u64) -> (r:
        Result<Amount, TransferFromError>)
        requires
            old(self).wf(),
            caller@.len() <= 29,
            args.wf(),
        ensures
            final(self).wf(),
            final(self).configuration == old(self).configuration,
            r matches Ok(n) ==> Ok::<nat, Rejection>(n@) == transfer_from_outcome(
                old(self).balances@,
                old(self).allowances@,
                old(self).configuration.minting_account@,
                old(self).configuration.fee,
                caller@,
                args,
                now,
            ).answer,
            r matches Err(e) ==> Err::<nat, Rejection>(e@) == transfer_from_outcome(
                old(self).balances@,
                old(self).allowances@,
                old(self).configuration.minting_account@,
                old(self).configuration.fee,
                caller@,
                args,
                now,
            ).answer,
            final(self).balances@ == transfer_from_outcome(
                old(self).balances@,
                old(self).allowances@,
                old(self).configuration.minting_account@,
                old(self).configuration.fee,
                caller@,
                args,
                now,
            ).balances,
            final(self).allowances@ == transfer_from_outcome(
                old(self).balances@,
                old(self).allowances@,
                old(self).configuration.minting_account@,
                old(self).configuration.fee,
                caller@,
                args,
                now,
            ).allowances,
    {
        let default_fee = self.configuration.get_fee();
        match Inspect::inspect_icrc2_transfer_from(&args, default_fee, now) {
            Err(e) => {
                return Err(e);
            },
            Ok(()) => {},
        }
        let owner_balance = self.balances.balance_of(&args.from);
        if owner_balance.less_than(&args.amount) {
            return Err(TransferFromError::InsufficientFunds { balance: owner_balance });
        }
        let spender = Account {
            owner: caller.clone(),
            subaccount: copy_bytes(&args.spender_subaccount),
        };
        let spender_balance = self.balances.balance_of(&spender);
        let fee = match &args.fee {
            Some(f) => f.clone(),
            None => Amount::from_u64(default_fee),
        };
        if spender_balance.less_than(&fee) {
            return Err(TransferFromError::InsufficientFunds { balance: spender_balance });
        }
        let (allowance, expires_at) = self.allowances.get_allowance(&args.from, &spender);
        if allowance.less_than(&args.amount) {
            return Err(TransferFromError::InsufficientAllowance { allowance });
        }
        let expired = match expires_at {
            Some(t) => t < now,
            None => false,
        };
        if expired {
            return Err(TransferFromError::TooOld);
        }
        match self.allowances.spend_allowance(
            caller,
            &args.from,
            &args.amount,
            copy_bytes(&args.spender_subaccount),
            now,
        ) {
            Ok(()) => {},
            Err(CanisterError::Allowance(AllowanceError::InsufficientFunds)) => {
                return Err(TransferFromError::InsufficientAllowance { allowance });
            },
            Err(CanisterError::Allowance(AllowanceError::AllowanceExpired)) => {
                return Err(TransferFromError::TooOld);
            },
            Err(e) => {
                return Err(
                    TransferFromError::GenericError { error_code: 0, message: e.message() },
                );
            },
        }
        let minting = self.configuration.get_minting_account();
        match self.balances.transfer_wno_fees(&spender, &minting, &fee) {
            Ok(()) => {},
            Err(_) => {
                return Err(
                    TransferFromError::InsufficientFunds {
                        balance: self.balances.balance_of(&spender),
                    },
                );
            },
        }
        match self.balances.transfer_wno_fees(&args.from, &args.to, &args.amount) {
            Ok(()) => {},
            Err(_) => {
                return Err(
                    TransferFromError::InsufficientFunds {
                        balance: self.balances.balance_of(&args.from),
                    },
                );
            },
        }
        Ok(Amount::from_u64(1))
    }

    /// What the spender may still move out of the account, and until when.
    pub fn icrc2_allowance(&self, args: AllowanceArgs) -> (r: Allowance)
        requires
            self.wf(),
            args.account.wf(),
            args.spender.wf(),
        ensures
            r.allowance.wf(),
            (r.allowance@, r.expires_at) == self.allowances.allowance(
                args.account@,
                args.spender@,
            ),
    {
        let (allowance, expires_at) = self.allowances.get_allowance(&args.account, &args.spender);
        Allowance { allowance, expires_at }
    }
}

} // verus!
