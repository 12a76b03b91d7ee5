//! The record that the allowance table stores for an owner and a spender.

use crate::amount::{be_len, be_value, lemma_be_len_positive, Amount};
use crate::codec::{
    chunk, chunk_at, get_chunk, get_u64, lemma_chunk_at_inside, lemma_u64_at_inside, put_chunk,
    put_u64, u64_at, u64_be,
};
use crate::requests::{amount_view, amount_wf, subaccount_view, ApproveArgs};
use vstd::prelude::*;

verus! {

/// What a spender may still move out of an owner's account, with the terms of
/// the approval that granted it.
#[derive(Clone, Debug, PartialEq, Eq, Hash)]
pub struct Spend {
    /// What may still be spent.
    pub amount: Amount,
    /// What the approver took the allowance to be before the approval.
    pub expected_allowance: Option<Amount>,
    /// The time after which nothing may be spent.
    pub expires_at: Option<u64>,
    pub fee: Option<Amount>,
    pub memo: Option<Vec<u8>>,
    pub created_at_time: u64,
}

/// What a stored allowance says.
pub ghost struct SpendView {
    pub amount: nat,
    pub expected_allowance: Option<nat>,
    pub expires_at: Option<u64>,
    pub fee: Option<nat>,
    pub memo: Option<Seq<u8>>,
    pub created_at_time: u64,
}

/// The fields of a stored allowance as the bytes carry them: amounts as
/// big-endian strings, and an empty string for an optional amount or memo that
/// is absent.
pub ghost struct SpendFields {
    pub amount: Seq<u8>,
    pub expected_allowance: Seq<u8>,
    pub expires_at: Option<u64>,
    pub fee: Seq<u8>,
    pub memo: Seq<u8>,
    pub created_at_time: u64,
}

/// The number that an optional amount's bytes denote: none for no bytes.
pub open spec fn optional_value(s: Seq<u8>) -> Option<nat> {
    if s.len() > 0 {
        Some(be_value(s))
    } else {
        None
    }
}

/// The memo that the bytes carry: none for no bytes.
pub open spec fn optional_memo(s: Seq<u8>) -> Option<Seq<u8>> {
    if s.len() > 0 {
        Some(s)
    } else {
        None
    }
}

impl SpendFields {
    /// What the fields say.
    pub open spec fn value(self) -> SpendView {
        SpendView {
            amount: be_value(self.amount),
            expected_allowance: optional_value(self.expected_allowance),
            expires_at: self.expires_at,
            fee: optional_value(self.fee),
            memo: optional_memo(self.memo),
            created_at_time: self.created_at_time,
        }
    }

    /// The stored bytes: the amount and the expected allowance as chunks, a
    /// flag and the expiry, the fee and the memo as chunks, the creation time.
    pub open spec fn bytes(self) -> Seq<u8> {
        chunk(self.amount) + chunk(self.expected_allowance) + expiry_bytes(self.expires_at)
            + chunk(self.fee) + chunk(self.memo) + u64_be(self.created_at_time)
    }

    /// The stored bytes are at most `Spend::MAX_SIZE`.
    pub open spec fn fits(self) -> bool {
        self.bytes().len() <= Spend::MAX_SIZE
    }
}

/// The stored bytes of an expiry: the flag 1 and the time, or the flag 0.
pub open spec fn expiry_bytes(e: Option<u64>) -> Seq<u8> {
    match e {
        Some(x) => seq![1u8] + u64_be(x),
        None => seq![0u8],
    }
}

/// The expiry whose stored bytes start at `p`, with the position behind them.
pub open spec fn expiry_at(s: Seq<u8>, p: int) -> Option<(Option<u64>, int)> {
    if 0 <= p < s.len() {
        if s[p] == 1 {
            match u64_at(s, p + 1) {
                Some((x, q)) => Some((Some(x), q)),
                None => None,
            }
        } else {
            Some((None, p + 1))
        }
    } else {
        None
    }
}

/// The fields that stored bytes carry; nothing where the bytes end before the
/// record does.
pub open spec fn spend_of_bytes(s: Seq<u8>) -> Option<SpendFields> {
    match chunk_at(s, 0) {
        Some((amount, at1)) => match chunk_at(s, at1) {
            Some((expected_allowance, at2)) => match expiry_at(s, at2) {
                Some((expires_at, at3)) => match chunk_at(s, at3) {
                    Some((fee, at4)) => match chunk_at(s, at4) {
                        Some((memo, at5)) => match u64_at(s, at5) {
                            Some((created_at_time, _)) => Some(
                                SpendFields {
                                    amount,
                                    expected_allowance,
                                    expires_at,
                                    fee,
                                    memo,
                                    created_at_time,
                                },
                            ),
                            None => None,
                        },
                        None => None,
                    },
                    None => None,
                },
                None => None,
            },
            None => None,
        },
        None => None,
    }
}

/// An expiry written between two strings is read back at its position.
pub proof fn lemma_expiry_at_inside(pre: Seq<u8>, e: Option<u64>, post: Seq<u8>)
    ensures
        expiry_at(pre + expiry_bytes(e) + post, pre.len() as int) == Some(
            (e, pre.len() as int + expiry_bytes(e).len()),
        ),
{
    let s = pre + expiry_bytes(e) + post;
    let p = pre.len() as int;
    assert(s[p] == expiry_bytes(e)[0]);
    match e {
        Some(x) => {
            assert(s =~= (pre + seq![1u8]) + u64_be(x) + post);
            lemma_u64_at_inside(pre + seq![1u8], x, post);
        },
        None => {},
    }
}

/// Six strings in a row can be split before and after any one of them.
proof fn lemma_six_parts(
    c1: Seq<u8>,
    c2: Seq<u8>,
    c3: Seq<u8>,
    c4: Seq<u8>,
    c5: Seq<u8>,
    c6: Seq<u8>,
)
    ensures
        c1 + c2 + c3 + c4 + c5 + c6 == Seq::<u8>::empty() + c1 + (c2 + c3 + c4 + c5 + c6),
        c1 + c2 + c3 + c4 + c5 + c6 == c1 + c2 + (c3 + c4 + c5 + c6),
        c1 + c2 + c3 + c4 + c5 + c6 == (c1 + c2) + c3 + (c4 + c5 + c6),
        c1 + c2 + c3 + c4 + c5 + c6 == (c1 + c2 + c3) + c4 + (c5 + c6),
        c1 + c2 + c3 + c4 + c5 + c6 == (c1 + c2 + c3 + c4 + c5) + c6 + Seq::<u8>::empty(),
{
    let s = c1 + c2 + c3 + c4 + c5 + c6;
    assert(s =~= Seq::<u8>::empty() + c1 + (c2 + c3 + c4 + c5 + c6));
    assert(s =~= c1 + c2 + (c3 + c4 + c5 + c6));
    assert(s =~= (c1 + c2) + c3 + (c4 + c5 + c6));
    assert(s =~= (c1 + c2 + c3) + c4 + (c5 + c6));
    assert(s =~= (c1 + c2 + c3 + c4 + c5) + c6 + Seq::<u8>::empty());
}

/// Where each part of a record that fits is found in its stored bytes.
proof fn lemma_spend_parts(f: SpendFields)
    requires
        f.fits(),
    ensures
        ({
            let s = f.bytes();
            let at1 = chunk(f.amount).len() as int;
            let at2 = at1 + chunk(f.expected_allowance).len();
            let at3 = at2 + expiry_bytes(f.expires_at).len();
            let at4 = at3 + chunk(f.fee).len();
            let at5 = at4 + chunk(f.memo).len();
            &&& chunk_at(s, 0) == Some((f.amount, at1))
            &&& chunk_at(s, at1) == Some((f.expected_allowance, at2))
            &&& expiry_at(s, at2) == Some((f.expires_at, at3))
            &&& chunk_at(s, at3) == Some((f.fee, at4))
            &&& chunk_at(s, at4) == Some((f.memo, at5))
            &&& u64_at(s, at5) == Some((f.created_at_time, at5 + 8))
        }),
{
    let c1 = chunk(f.amount);
    let c2 = chunk(f.expected_allowance);
    let c3 = expiry_bytes(f.expires_at);
    let c4 = chunk(f.fee);
    let c5 = chunk(f.memo);
    let c6 = u64_be(f.created_at_time);
    let e = Seq::<u8>::empty();
    lemma_six_parts(c1, c2, c3, c4, c5, c6);
    lemma_chunk_at_inside(e, f.amount, c2 + c3 + c4 + c5 + c6);
    lemma_chunk_at_inside(c1, f.expected_allowance, c3 + c4 + c5 + c6);
    lemma_expiry_at_inside(c1 + c2, f.expires_at, c4 + c5 + c6);
    lemma_chunk_at_inside(c1 + c2 + c3, f.fee, c5 + c6);
    lemma_chunk_at_inside(c1 + c2 + c3 + c4, f.memo, c6);
    lemma_u64_at_inside(c1 + c2 + c3 + c4 + c5, f.created_at_time, e);
}

/// Every record that fits is read back from its stored bytes.
pub proof fn lemma_spend_round_trip(f: SpendFields)
    requires
        f.fits(),
    ensures
        spend_of_bytes(f.bytes()) == Some(f),
{
    lemma_spend_parts(f);
}

/// The number of bytes that an optional amount takes in its shortest form.
pub open spec fn optional_len(a: Option<nat>) -> nat {
    match a {
        Some(n) => be_len(n),
        None => 0,
    }
}

/// The number of bytes that the stored form of a record takes.
pub open spec fn record_size(v: SpendView) -> nat {
    1 + be_len(v.amount) + 1 + optional_len(v.expected_allowance) + (if v.expires_at.is_some() {
        9nat
    } else {
        1nat
    }) + 1 + optional_len(v.fee) + 1 + (match v.memo {
        Some(m) => m.len(),
        None => 0,
    }) + 8
}

/// The record that an approval asks for: the request's terms, an empty memo
/// counting as none, created at the time the request names, or now where it
/// names none.
pub open spec fn request_record(a: ApproveArgs, now: u64) -> SpendView {
    SpendView {
        amount: a.amount@,
        expected_allowance: amount_view(a.expected_allowance),
        expires_at: a.expires_at,
        fee: amount_view(a.fee),
        memo: optional_memo(optional_memo_bytes(a.memo)),
        created_at_time: match a.created_at_time {
            Some(t) => t,
            None => now,
        },
    }
}

/// The bytes that carry an optional amount.
pub open spec fn optional_amount_bytes(a: Option<Amount>) -> Seq<u8> {
    match a {
        Some(x) => x.bytes@,
        None => Seq::empty(),
    }
}

/// The bytes that carry an optional memo.
pub open spec fn optional_memo_bytes(m: Option<Vec<u8>>) -> Seq<u8> {
    match m {
        Some(x) => x@,
        None => Seq::empty(),
    }
}

impl View for Spend {
    type V = SpendView;

    open spec fn view(&self) -> SpendView {
        SpendView {
            amount: self.amount@,
            expected_allowance: amount_view(self.expected_allowance),
            expires_at: self.expires_at,
            fee: amount_view(self.fee),
            memo: subaccount_view(self.memo),
            created_at_time: self.created_at_time,
        }
    }
}

impl Spend {
    /// The largest number of bytes that a stored allowance takes.
    pub const MAX_SIZE: usize = 256;

    /// Every amount is in its shortest form, and a memo, if there is one, is
    /// not empty.
    pub open spec fn wf(&self) -> bool {
        &&& self.amount.wf()
        &&& amount_wf(self.expected_allowance)
        &&& amount_wf(self.fee)
        &&& self.memo matches Some(m) ==> m@.len() > 0
    }

    /// The fields as the stored bytes carry them.
    pub open spec fn fields(&self) -> SpendFields {
        SpendFields {
            amount: self.amount.bytes@,
            expected_allowance: optional_amount_bytes(self.expected_allowance),
            expires_at: self.expires_at,
            fee: optional_amount_bytes(self.fee),
            memo: optional_memo_bytes(self.memo),
            created_at_time: self.created_at_time,
        }
    }

    /// The stored form is at most `MAX_SIZE` bytes long.
    pub open spec fn fits(&self) -> bool {
        self.fields().fits()
    }

    /// The fields of a well-formed record say what the record says.
    pub proof fn lemma_fields_value(&self)
        requires
            self.wf(),
        ensures
            self.fields().value() == self@,
    {
        lemma_be_len_positive(self.amount@);
        if let Some(x) = self.expected_allowance {
            lemma_be_len_positive(x@);
        }
        if let Some(x) = self.fee {
            lemma_be_len_positive(x@);
        }
    }

    /// The stored form of a well-formed record takes `record_size` bytes.
    pub proof fn lemma_size(&self)
        requires
            self.wf(),
        ensures
            self.fields().bytes().len() == record_size(self@),
            self.fits() == (record_size(self@) <= Self::MAX_SIZE),
    {
    }

    /// Reading the stored bytes of a well-formed record that fits gives back
    /// what the record says.
    pub proof fn lemma_round_trip(&self)
        requires
            self.wf(),
            self.fits(),
        ensures
            spend_of_bytes(self.fields().bytes()).is_some(),
            spend_of_bytes(self.fields().bytes()).unwrap().value() == self@,
    {
        lemma_spend_round_trip(self.fields());
        self.lemma_fields_value();
    }

    /// The record of an approval: the request's terms, created at the time the
    /// request names, or now where it names none.
    pub fn from(value: ApproveArgs, now: u64) -> (r: Spend)
        ensures
            r.amount == value.amount,
            r.expected_allowance == value.expected_allowance,
            r.expires_at == value.expires_at,
            r.fee == value.fee,
            r.memo == value.memo,
            r.created_at_time == match value.created_at_time {
                Some(t) => t,
                None => now,
            },
    {
        Spend {
            amount: value.amount,
            expected_allowance: value.expected_allowance,
            expires_at: value.expires_at,
            fee: value.fee,
            memo: value.memo,
            created_at_time: match value.created_at_time {
                Some(t) => t,
                None => now,
            },
        }
    }

    /// Whether the stored form is at most `MAX_SIZE` bytes long.
    pub fn check_fits(&self) -> (r: bool)
        ensures
            r == self.fits(),
    {
        let a: usize = self.amount.bytes.len();
        let e: usize = match &self.expected_allowance {
            Some(x) => x.bytes.len(),
            None => 0,
        };
        let f: usize = match &self.fee {
            Some(x) => x.bytes.len(),
            None => 0,
        };
        let m: usize = match &self.memo {
            Some(x) => x.len(),
            None => 0,
        };
        let t: usize = if self.expires_at.is_some() {
            21
        } else {
            13
        };
        a <= 256 && e <= 256 && f <= 256 && m <= 256 && a + e + f + m + t <= 256
    }

    /// The stored bytes of the record.
    pub fn to_bytes(&self) -> (r: Vec<u8>)
        requires
            self.wf(),
            self.fits(),
        ensures
            r@ == self.fields().bytes(),
            r@.len() <= Self::MAX_SIZE,
            spend_of_bytes(r@) == Some(self.fields()),
            self.fields().value() == self@,
    {
        let mut out: Vec<u8> = Vec::new();
        put_chunk(&mut out, self.amount.bytes.as_slice());
        match &self.expected_allowance {
            Some(x) => put_chunk(&mut out, x.bytes.as_slice()),
            None => {
                let none: Vec<u8> = Vec::new();
                put_chunk(&mut out, none.as_slice())
            },
        }
        match self.expires_at {
            Some(x) => {
                out.push(1u8);
                put_u64(&mut out, x);
            },
            None => {
                out.push(0u8);
            },
        }
        match &self.fee {
            Some(x) => put_chunk(&mut out, x.bytes.as_slice()),
            None => {
                let none: Vec<u8> = Vec::new();
                put_chunk(&mut out, none.as_slice())
            },
        }
        match &self.memo {
            Some(x) => put_chunk(&mut out, x.as_slice()),
            None => {
                let none: Vec<u8> = Vec::new();
                put_chunk(&mut out, none.as_slice())
            },
        }
        put_u64(&mut out, self.created_at_time);
        proof {
            assert(out@ =~= self.fields().bytes());
            lemma_spend_round_trip(self.fields());
            self.lemma_fields_value();
        }
        out
    }

    /// The record that the bytes hold; nothing where they end before the
    /// record does.
    pub fn from_bytes(bytes: &[u8]) -> (r: Option<Spend>)
        ensures
            match spend_of_bytes(bytes@) {
                Some(f) => r.is_some() && r.unwrap()@ == f.value() && r.unwrap().wf(),
                None => r.is_none(),
            },
    {
        let (amount_bytes, at1) = match get_chunk(bytes, 0) {
            Some(x) => x,
            None => { return None; },
        };
        let amount = Amount::from_be_bytes(amount_bytes.as_slice());
        let (expected_bytes, at2) = match get_chunk(bytes, at1) {
            Some(x) => x,
            None => { return None; },
        };
        let expected_allowance = if expected_bytes.len() > 0 {
            Some(Amount::from_be_bytes(expected_bytes.as_slice()))
        } else {
            None
        };
        if at2 >= bytes.len() {
            return None;
        }
        let (expires_at, at3) = if bytes[at2] == 1 {
            match get_u64(bytes, at2 + 1) {
                Some((x, q)) => (Some(x), q),
                None => { return None; },
            }
        } else {
            (None, at2 + 1)
        };
        let (fee_bytes, at4) = match get_chunk(bytes, at3) {
            Some(x) => x,
            None => { return None; },
        };
        let fee = if fee_bytes.len() > 0 {
            Some(Amount::from_be_bytes(fee_bytes.as_slice()))
        } else {
            None
        };
        let (memo_bytes, at5) = match get_chunk(bytes, at4) {
            Some(x) => x,
            None => { return None; },
        };
        let memo = if memo_bytes.len() > 0 {
            Some(memo_bytes)
        } else {
            None
        };
        let created_at_time = match get_u64(bytes, at5) {
            Some((x, _)) => x,
            None => { return None; },
        };
        Some(Spend { amount, expected_allowance, expires_at, fee, memo, created_at_time })
    }
}

} // verus!
