//! Accounts and the bytes under which an account is stored.

use crate::codec::{chunk, chunk_at, get_chunk, lemma_chunk_at_inside, put_chunk, same_bytes};
use vstd::prelude::*;

verus! {

/// The longest owner identity, in bytes.
pub const MAX_OWNER_LEN: usize = 29;

/// The length of a subaccount, in bytes.
pub const SUBACCOUNT_LEN: usize = 32;

/// An owner identity with an optional 32-byte subaccount.
#[derive(Debug, PartialEq, Eq, PartialOrd, Ord, Hash)]
pub struct Account {
    pub owner: Vec<u8>,
    pub subaccount: Option<Vec<u8>>,
}

/// What an account is: the owner's bytes and the subaccount's, if it has one.
pub ghost struct AccountView {
    pub owner: Seq<u8>,
    pub subaccount: Option<Seq<u8>>,
}

impl AccountView {
    /// The owner has at most 29 bytes and a subaccount has 32.
    pub open spec fn wf(self) -> bool {
        &&& self.owner.len() <= MAX_OWNER_LEN
        &&& self.subaccount matches Some(s) ==> s.len() == SUBACCOUNT_LEN
    }

    /// The bytes of the subaccount, none for an account without one.
    pub open spec fn subaccount_bytes(self) -> Seq<u8> {
        match self.subaccount {
            Some(s) => s,
            None => Seq::empty(),
        }
    }

    /// The bytes under which the account is stored: the owner as a chunk, then
    /// the subaccount as a chunk, which is empty for an account without one.
    pub open spec fn key(self) -> Seq<u8> {
        chunk(self.owner) + chunk(self.subaccount_bytes())
    }
}

/// The account whose stored bytes start at `p` in `s`, with the position behind
/// them; nothing where no account's bytes start there.
pub open spec fn account_at(s: Seq<u8>, p: int) -> Option<(AccountView, int)> {
    match chunk_at(s, p) {
        Some((owner, q)) => match chunk_at(s, q) {
            Some((sub, r)) => if owner.len() > MAX_OWNER_LEN {
                None
            } else if sub.len() == 0 {
                Some((AccountView { owner, subaccount: None }, r))
            } else if sub.len() == SUBACCOUNT_LEN {
                Some((AccountView { owner, subaccount: Some(sub) }, r))
            } else {
                None
            },
            None => None,
        },
        None => None,
    }
}

/// An account's bytes written between two strings are read back at their
/// position.
pub proof fn lemma_account_at_inside(pre: Seq<u8>, a: AccountView, post: Seq<u8>)
    requires
        a.wf(),
    ensures
        account_at(pre + a.key() + post, pre.len() as int) == Some(
            (a, pre.len() as int + a.key().len()),
        ),
{
    let s = pre + a.key() + post;
    let sub = a.subaccount_bytes();
    assert(s =~= pre + chunk(a.owner) + (chunk(sub) + post));
    lemma_chunk_at_inside(pre, a.owner, chunk(sub) + post);
    assert(s =~= (pre + chunk(a.owner)) + chunk(sub) + post);
    lemma_chunk_at_inside(pre + chunk(a.owner), sub, post);
}

/// Two accounts with the same stored bytes are the same account.
pub proof fn lemma_key_injective(a: AccountView, b: AccountView)
    requires
        a.wf(),
        b.wf(),
        a.key() == b.key(),
    ensures
        a == b,
{
    lemma_account_at_inside(Seq::empty(), a, Seq::empty());
    lemma_account_at_inside(Seq::empty(), b, Seq::empty());
    assert(Seq::<u8>::empty() + a.key() + Seq::<u8>::empty() =~= a.key());
    assert(Seq::<u8>::empty() + b.key() + Seq::<u8>::empty() =~= b.key());
}

impl View for Account {
    type V = AccountView;

    open spec fn view(&self) -> AccountView {
        AccountView {
            owner: self.owner@,
            subaccount: match self.subaccount {
                Some(s) => Some(s@),
                None => None,
            },
        }
    }
}

impl Clone for Account {
    fn clone(&self) -> (r: Self)
        ensures
            r@ == self@,
    {
        Account {
            owner: self.owner.clone(),
            subaccount: match &self.subaccount {
                Some(s) => Some(s.clone()),
                None => None,
            },
        }
    }
}

impl Account {
    pub open spec fn wf(&self) -> bool {
        self@.wf()
    }

    /// Whether the two are the same account: the same owner and the same
    /// subaccount, or both without one.
    pub fn same(&self, other: &Account) -> (r: bool)
        ensures
            r == (self@ == other@),
    {
        if !same_bytes(self.owner.as_slice(), other.owner.as_slice()) {
            return false;
        }
        match (&self.subaccount, &other.subaccount) {
            (Some(a), Some(b)) => same_bytes(a.as_slice(), b.as_slice()),
            (None, None) => true,
            _ => false,
        }
    }

    /// The bytes under which the account is stored.
    pub fn key(&self) -> (r: Vec<u8>)
        requires
            self.wf(),
        ensures
            r@ == self@.key(),
    {
        let mut out: Vec<u8> = Vec::new();
        put_chunk(&mut out, self.owner.as_slice());
        match &self.subaccount {
            Some(s) => {
                put_chunk(&mut out, s.as_slice());
            },
            None => {
                let none: Vec<u8> = Vec::new();
                put_chunk(&mut out, none.as_slice());
            },
        }
        assert(out@ =~= self@.key());
        out
    }

    /// Reads the account whose stored bytes start at `p`.
    pub fn read_at(bytes: &[u8], p: usize) -> (r: Option<(Account, usize)>)
        ensures
            match account_at(bytes@, p as int) {
                Some((a, q)) => r.is_some() && r.unwrap().0@ == a && r.unwrap().0.wf()
                    && r.unwrap().1 == q && q <= bytes@.len(),
                None => r.is_none(),
            },
    {
        match get_chunk(bytes, p) {
            Some((owner, q)) => match get_chunk(bytes, q) {
                Some((sub, r)) => {
                    if owner.len() > MAX_OWNER_LEN {
                        None
                    } else if sub.len() == 0 {
                        Some((Account { owner, subaccount: None }, r))
                    } else if sub.len() == SUBACCOUNT_LEN {
                        Some((Account { owner, subaccount: Some(sub) }, r))
                    } else {
                        None
                    }
                },
                None => None,
            },
            None => None,
        }
    }
}

/// An account as the balance table stores it.
#[derive(Clone, Debug, PartialEq, Eq, PartialOrd, Ord, Hash)]
pub struct StorableAccount(pub Account);

impl StorableAccount {
    /// The largest number of bytes that an account takes.
    pub const MAX_SIZE: usize = 128;

    pub fn from(value: Account) -> (r: StorableAccount)
        ensures
            r.0 == value,
    {
        StorableAccount(value)
    }

    /// The stored bytes of the account, at most `MAX_SIZE` of them.
    pub fn to_bytes(&self) -> (r: Vec<u8>)
        requires
            self.0.wf(),
        ensures
            r@ == self.0@.key(),
            r@.len() <= Self::MAX_SIZE,
    {
        self.0.key()
    }

    /// The account that the bytes hold at their start; nothing where they hold
    /// none.
    pub fn from_bytes(bytes: &[u8]) -> (r: Option<StorableAccount>)
        ensures
            match account_at(bytes@, 0) {
                Some((a, q)) => r.is_some() && r.unwrap().0@ == a && r.unwrap().0.wf(),
                None => r.is_none(),
            },
    {
        match Account::read_at(bytes, 0) {
            Some((a, _)) => Some(StorableAccount(a)),
            None => None,
        }
    }
}

/// Every account is read back from its stored bytes.
pub proof fn lemma_account_round_trip(a: AccountView)
    requires
        a.wf(),
    ensures
        account_at(a.key(), 0) == Some((a, a.key().len() as int)),
{
    lemma_account_at_inside(Seq::empty(), a, Seq::empty());
    assert(Seq::<u8>::empty() + a.key() + Seq::<u8>::empty() =~= a.key());
}

} // verus!
