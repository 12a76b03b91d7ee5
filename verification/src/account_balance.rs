//! The record that the balance table stores for an account.

use crate::amount::{be_value, Amount};
use crate::codec::{chunk, chunk_at, get_chunk, lemma_chunk_at_inside, put_chunk};
use vstd::prelude::*;

verus! {

/// The balance of one account.
#[derive(Clone, Debug, PartialEq, Eq)]
pub struct Balance {
    pub amount: Amount,
}

/// The stored bytes of a balance whose amount has the given big-endian bytes:
/// one chunk.
pub open spec fn balance_bytes(amount: Seq<u8>) -> Seq<u8> {
    chunk(amount)
}

/// The amount that the stored bytes of a balance hold; nothing where the bytes
/// end before the chunk does.
pub open spec fn balance_of_bytes(s: Seq<u8>) -> Option<nat> {
    match chunk_at(s, 0) {
        Some((data, _)) => Some(be_value(data)),
        None => None,
    }
}

/// Every balance that fits is read back from its stored bytes.
pub proof fn lemma_balance_round_trip(amount: Seq<u8>)
    requires
        amount.len() < Balance::MAX_SIZE,
    ensures
        balance_of_bytes(balance_bytes(amount)) == Some(be_value(amount)),
{
    lemma_chunk_at_inside(Seq::empty(), amount, Seq::empty());
    assert(Seq::<u8>::empty() + chunk(amount) + Seq::<u8>::empty() =~= chunk(amount));
}

impl View for Balance {
    type V = nat;

    open spec fn view(&self) -> nat {
        self.amount@
    }
}

impl Balance {
    /// The largest number of bytes that a stored balance takes.
    pub const MAX_SIZE: usize = 64;

    /// The amount is in its shortest form and short enough to be stored.
    pub open spec fn wf(&self) -> bool {
        self.amount.wf() && self.amount.size() < Self::MAX_SIZE
    }

    pub fn from(amount: Amount) -> (r: Balance)
        ensures
            r.amount == amount,
    {
        Balance { amount }
    }

    /// The stored bytes: the length of the amount's big-endian bytes, then the
    /// bytes themselves.
    pub fn to_bytes(&self) -> (r: Vec<u8>)
        requires
            self.wf(),
        ensures
            r@ == balance_bytes(self.amount.bytes@),
            r@.len() <= Self::MAX_SIZE,
            balance_of_bytes(r@) == Some(self@),
    {
        let mut out: Vec<u8> = Vec::new();
        put_chunk(&mut out, self.amount.bytes.as_slice());
        proof {
            assert(out@ =~= balance_bytes(self.amount.bytes@));
            lemma_balance_round_trip(self.amount.bytes@);
        }
        out
    }

    /// The balance that the bytes hold; nothing where they end too early.
    pub fn from_bytes(bytes: &[u8]) -> (r: Option<Balance>)
        ensures
            match balance_of_bytes(bytes@) {
                Some(n) => r.is_some() && r.unwrap()@ == n && r.unwrap().amount.wf(),
                None => r.is_none(),
            },
    {
        match get_chunk(bytes, 0) {
            Some((data, _)) => Some(Balance { amount: Amount::from_be_bytes(data.as_slice()) }),
            None => None,
        }
    }
}

} // verus!
