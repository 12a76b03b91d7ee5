//! The checks that a request passes before it touches any state.

use crate::amount::Amount;
use crate::codec::same_bytes;
use crate::requests::{
    ApproveArgs, ApproveError, Rejection, TransferArg, TransferError, TransferFromArgs,
    TransferFromError,
};
use vstd::prelude::*;

verus! {

/// How far from now, in nanoseconds, the creation time of a request may lie:
/// five minutes.
pub const TX_TIME_SKID: u64 = 300_000_000_000;

/// How long before now, in nanoseconds, an approval or a transfer by a
/// spender may have been created: 300 seconds. A creation time after now is
/// never accepted there.
pub const APPROVE_TIME_WINDOW: u64 = 300_000_000_000;

/// The validator of requests.
pub struct Inspect;

/// A message that asks for an update, by what it asks.
#[derive(Clone, Debug)]
pub enum Message {
    Transfer(TransferArg),
    Approve(ApproveArgs),
    TransferFrom(TransferFromArgs),
    Other,
}

/// Whether the message passes the check that its kind calls for; a message
/// of another kind passes.
pub open spec fn message_passes(caller: Seq<u8>, message: Message, default_fee: u64, now: u64)
    -> bool {
    match message {
        Message::Transfer(args) => transfer_refusal(args, default_fee, now).is_none(),
        Message::Approve(args) => approve_refusal(caller, args, default_fee, now).is_none(),
        Message::TransferFrom(args) => transfer_from_refusal(args, default_fee, now).is_none(),
        Message::Other => true,
    }
}

/// The words for a memo of the wrong length.
pub open spec fn bad_memo_text() -> Seq<char> {
    "Invalid memo length. I must have a length between 32 and 64 bytes"@
}

/// The words for an approval whose spender is the caller.
pub open spec fn bad_spender_text() -> Seq<char> {
    "Spender and owner cannot be equal"@
}

/// The fee that a request offers is less than the configured one.
pub open spec fn fee_too_low(fee: Option<Amount>, default_fee: u64) -> bool {
    fee.is_some() && fee.unwrap()@ < default_fee
}

/// The memo has fewer than 32 or more than 64 bytes.
pub open spec fn memo_bad(memo: Option<Vec<u8>>) -> bool {
    memo.is_some() && (memo.unwrap()@.len() < 32 || memo.unwrap()@.len() > 64)
}

/// Why a transfer is refused, if it is: for a fee under the configured one, a
/// creation time more than five minutes before or after now, or a memo of the
/// wrong length, in this order.
pub open spec fn transfer_refusal(args: TransferArg, default_fee: u64, now: u64) -> Option<
    Rejection,
> {
    let created = match args.created_at_time {
        Some(t) => t,
        None => now,
    };
    if fee_too_low(args.fee, default_fee) {
        Some(Rejection::BadFee { expected_fee: default_fee as nat })
    } else if now > created && now - created > TX_TIME_SKID {
        Some(Rejection::TooOld)
    } else if created > now && created - now > TX_TIME_SKID {
        Some(Rejection::CreatedInFuture { ledger_time: now })
    } else if memo_bad(args.memo) {
        Some(Rejection::GenericError { error_code: 1, message: bad_memo_text() })
    } else {
        None
    }
}

/// Why a creation time is refused, if it is: for lying after now, or more
/// than 300 seconds before it.
pub open spec fn created_refusal(created_at_time: Option<u64>, now: u64) -> Option<Rejection> {
    match created_at_time {
        Some(created) => if created > now {
            Some(Rejection::CreatedInFuture { ledger_time: now })
        } else if now - created > APPROVE_TIME_WINDOW {
            Some(Rejection::TooOld)
        } else {
            None
        },
        None => None,
    }
}

/// Why an approval is refused, if it is: for a spender owned by the caller, a
/// fee under the configured one, an expiry before now, or a creation time
/// after now or more than 300 seconds before it, in this order.
pub open spec fn approve_refusal(caller: Seq<u8>, args: ApproveArgs, default_fee: u64, now: u64)
    -> Option<Rejection> {
    if args.spender@.owner == caller {
        Some(Rejection::GenericError { error_code: 0, message: bad_spender_text() })
    } else if fee_too_low(args.fee, default_fee) {
        Some(Rejection::BadFee { expected_fee: default_fee as nat })
    } else if args.expires_at.is_some() && args.expires_at.unwrap() < now {
        Some(Rejection::Expired { ledger_time: now })
    } else {
        created_refusal(args.created_at_time, now)
    }
}

/// Why a transfer by a spender is refused, if it is: for a fee under the
/// configured one, a creation time after now or more than 300 seconds
/// before it, or a memo of the wrong length, in this order.
pub open spec fn transfer_from_refusal(args: TransferFromArgs, default_fee: u64, now: u64)
    -> Option<Rejection> {
    if fee_too_low(args.fee, default_fee) {
        Some(Rejection::BadFee { expected_fee: default_fee as nat })
    } else if created_refusal(args.created_at_time, now).is_some() {
        created_refusal(args.created_at_time, now)
    } else if memo_bad(args.memo) {
        Some(Rejection::GenericError { error_code: 0, message: bad_memo_text() })
    } else {
        None
    }
}

fn offers_too_little(fee: &Option<Amount>, default_fee: u64) -> (r: bool)
    ensures
        r == fee_too_low(*fee, default_fee),
{
    match fee {
        Some(f) => {
            let wanted = Amount::from_u64(default_fee);
            f.less_than(&wanted)
        },
        None => false,
    }
}

fn has_bad_memo(memo: &Option<Vec<u8>>) -> (r: bool)
    ensures
        r == memo_bad(*memo),
{
    match memo {
        Some(m) => m.len() < 32 || m.len() > 64,
        None => false,
    }
}

impl Inspect {
    /// Whether a message is let in: it is, unless the check that its kind
    /// calls for refuses it.
    pub fn accepts(caller: &Vec<u8>, message: &Message, default_fee: u64, now: u64) -> (r: bool)
        ensures
            r == message_passes(caller@, *message, default_fee, now),
    {
        match message {
            Message::Transfer(args) => Inspect::inspect_transfer(args, default_fee, now).is_ok(),
            Message::Approve(args) => Inspect::inspect_icrc2_approve(
                caller,
                args,
                default_fee,
                now,
            ).is_ok(),
            Message::TransferFrom(args) => Inspect::inspect_icrc2_transfer_from(
                args,
                default_fee,
                now,
            ).is_ok(),
            Message::Other => true,
        }
    }

    /// Checks a transfer against the configured fee and the time now.
    pub fn inspect_transfer(args: &TransferArg, default_fee: u64, now: u64) -> (r: Result<
        (),
        TransferError,
    >)
        ensures
            match transfer_refusal(*args, default_fee, now) {
                Some(why) => r.is_err() && r.unwrap_err()@ == why,
                None => r.is_ok(),
            },
    {
        if offers_too_little(&args.fee, default_fee) {
            return Err(TransferError::BadFee { expected_fee: Amount::from_u64(default_fee) });
        }
        let created: u64 = match args.created_at_time {
            Some(t) => t,
            None => now,
        };
        if now > created && now - created > TX_TIME_SKID {
            return Err(TransferError::TooOld);
        } else if created > now && created - now > TX_TIME_SKID {
            return Err(TransferError::CreatedInFuture { ledger_time: now });
        }
        if has_bad_memo(&args.memo) {
            return Err(
                TransferError::GenericError {
                    error_code: 1,
                    message: "Invalid memo length. I must have a length between 32 and 64 bytes".to_owned(),
                },
            );
        }
        Ok(())
    }

    /// Checks an approval against the caller, the configured fee and the time
    /// now.
    pub fn inspect_icrc2_approve(
        caller: &Vec<u8>,
        args: &ApproveArgs,
        default_fee: u64,
        now: u64,
    ) -> (r: Result<(), ApproveError>)
        ensures
            match approve_refusal(caller@, *args, default_fee, now) {
                Some(why) => r.is_err() && r.unwrap_err()@ == why,
                None => r.is_ok(),
            },
    {
        if same_bytes(args.spender.owner.as_slice(), caller.as_slice()) {
            return Err(
                ApproveError::GenericError {
                    error_code: 0,
                    message: "Spender and owner cannot be equal".to_owned(),
                },
            );
        }
        if offers_too_little(&args.fee, default_fee) {
            return Err(ApproveError::BadFee { expected_fee: Amount::from_u64(default_fee) });
        }
        match args.expires_at {
            Some(expiry) => {
                if expiry < now {
                    return Err(ApproveError::Expired { ledger_time: now });
                }
            },
            None => {},
        }
        match args.created_at_time {
            Some(created) => {
                if created > now {
                    return Err(ApproveError::CreatedInFuture { ledger_time: now });
                }
                if now - created > APPROVE_TIME_WINDOW {
                    return Err(ApproveError::TooOld);
                }
            },
            None => {},
        }
        Ok(())
    }

    /// Checks a transfer by a spender against the configured fee and the time
    /// now.
    pub fn inspect_icrc2_transfer_from(args: &TransferFromArgs, default_fee: u64, now: u64) -> (r:
        Result<(), TransferFromError>)
        ensures
            match transfer_from_refusal(*args, default_fee, now) {
                Some(why) => r.is_err() && r.unwrap_err()@ == why,
                None => r.is_ok(),
            },
    {
        if offers_too_little(&args.fee, default_fee) {
            return Err(TransferFromError::BadFee { expected_fee: Amount::from_u64(default_fee) });
        }
        match args.created_at_time {
            Some(created) => {
                if created > now {
                    return Err(TransferFromError::CreatedInFuture { ledger_time: now });
                }
                if now - created > APPROVE_TIME_WINDOW {
                    return Err(TransferFromError::TooOld);
                }
            },
            None => {},
        }
        if has_bad_memo(&args.memo) {
            return Err(
                TransferFromError::GenericError {
                    error_code: 0,
                    message: "Invalid memo length. I must have a length between 32 and 64 bytes".to_owned(),
                },
            );
        }
        Ok(())
    }
}

} // verus!
