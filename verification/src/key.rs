//! The key of the allowance table: who owns the funds and who may spend them.

use crate::account::{
    account_at, lemma_account_at_inside, Account, AccountView, StorableAccount,
};
use vstd::prelude::*;

verus! {

/// The pair of the account that owns a balance and the account that may spend
/// from it.
#[derive(Clone, Debug, PartialEq, Eq, PartialOrd, Ord, Hash)]
pub struct AllowanceKey {
    pub balance_owner: StorableAccount,
    pub spender: StorableAccount,
}

/// The stored bytes of a key: the owner's bytes, then the spender's.
pub open spec fn allowance_key(owner: AccountView, spender: AccountView) -> Seq<u8> {
    owner.key() + spender.key()
}

/// The pair of accounts that the stored bytes of a key hold.
pub open spec fn allowance_key_of_bytes(s: Seq<u8>) -> Option<(AccountView, AccountView)> {
    match account_at(s, 0) {
        Some((owner, p)) => match account_at(s, p) {
            Some((spender, _)) => Some((owner, spender)),
            None => None,
        },
        None => None,
    }
}

/// Every key is read back from its stored bytes.
pub proof fn lemma_allowance_key_round_trip(owner: AccountView, spender: AccountView)
    requires
        owner.wf(),
        spender.wf(),
    ensures
        allowance_key_of_bytes(allowance_key(owner, spender)) == Some((owner, spender)),
{
    let s = allowance_key(owner, spender);
    assert(s =~= Seq::<u8>::empty() + owner.key() + spender.key());
    lemma_account_at_inside(Seq::empty(), owner, spender.key());
    assert(s =~= owner.key() + spender.key() + Seq::<u8>::empty());
    lemma_account_at_inside(owner.key(), spender, Seq::empty());
}

/// Two pairs with the same stored bytes are the same pair: in particular a
/// pair and its reverse are stored apart.
pub proof fn lemma_allowance_key_injective(
    o1: AccountView,
    s1: AccountView,
    o2: AccountView,
    s2: AccountView,
)
    requires
        o1.wf(),
        s1.wf(),
        o2.wf(),
        s2.wf(),
        allowance_key(o1, s1) == allowance_key(o2, s2),
    ensures
        o1 == o2,
        s1 == s2,
{
    lemma_allowance_key_round_trip(o1, s1);
    lemma_allowance_key_round_trip(o2, s2);
}

impl AllowanceKey {
    /// The largest number of bytes that a key takes.
    pub const MAX_SIZE: usize = 256;

    pub open spec fn wf(&self) -> bool {
        self.balance_owner.0.wf() && self.spender.0.wf()
    }

    /// The stored bytes of this key.
    pub open spec fn bytes(&self) -> Seq<u8> {
        allowance_key(self.balance_owner.0@, self.spender.0@)
    }

    pub fn new(balance_owner: Account, spender: Account) -> (r: AllowanceKey)
        ensures
            r.balance_owner.0 == balance_owner,
            r.spender.0 == spender,
    {
        AllowanceKey {
            balance_owner: StorableAccount::from(balance_owner),
            spender: StorableAccount::from(spender),
        }
    }

    /// The stored bytes, at most `MAX_SIZE` of them.
    pub fn to_bytes(&self) -> (r: Vec<u8>)
        requires
            self.wf(),
        ensures
            r@ == self.bytes(),
            r@.len() <= Self::MAX_SIZE,
    {
        let mut out = self.balance_owner.0.key();
        let second = self.spender.0.key();
        out.extend_from_slice(second.as_slice());
        out
    }

    /// The key that the bytes hold; nothing where they hold no two accounts.
    pub fn from_bytes(bytes: &[u8]) -> (r: Option<AllowanceKey>)
        ensures
            match allowance_key_of_bytes(bytes@) {
                Some((o, s)) => r.is_some() && r.unwrap().balance_owner.0@ == o
                    && r.unwrap().spender.0@ == s && r.unwrap().wf(),
                None => r.is_none(),
            },
    {
        match Account::read_at(bytes, 0) {
            Some((owner, p)) => match Account::read_at(bytes, p) {
                Some((spender, _)) => Some(AllowanceKey::new(owner, spender)),
                None => None,
            },
            None => None,
        }
    }
}

} // verus!
