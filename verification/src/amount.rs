//! Arbitrary-precision non-negative amounts, held as big-endian magnitude bytes.

use num_bigint::BigUint;
use vstd::prelude::*;

verus! {

/// The number that a big-endian byte string denotes. The empty string denotes zero.
pub open spec fn be_value(s: Seq<u8>) -> nat
    decreases s.len(),
{
    if s.len() == 0 {
        0
    } else {
        be_value(s.drop_last()) * 256 + s.last() as nat
    }
}

/// The length of the shortest big-endian byte string that denotes `n`, where
/// zero takes one byte.
pub open spec fn be_len(n: nat) -> nat
    decreases n,
{
    if n < 256 {
        1
    } else {
        1 + be_len(n / 256)
    }
}

/// Every number takes at least one byte: zero is never written as no bytes.
pub proof fn lemma_be_len_positive(n: nat)
    ensures
        be_len(n) >= 1,
{
    reveal_with_fuel(be_len, 1);
}

/// A larger number never has a shorter byte string.
pub proof fn lemma_be_len_monotone(a: nat, b: nat)
    requires
        a <= b,
    ensures
        be_len(a) <= be_len(b),
    decreases b,
{
    if a >= 256 {
        assert(a / 256 <= b / 256) by (nonlinear_arith)
            requires
                a <= b,
        ;
        lemma_be_len_monotone(a / 256, b / 256);
    }
}

/// A non-negative integer of any size.
#[derive(Debug, PartialEq, Eq, Hash)]
pub struct Amount {
    /// Big-endian magnitude, in the shortest form.
    pub bytes: Vec<u8>,
}

/// Calls `num_bigint::BigUint::from_bytes_be` and `BigUint::to_bytes_be`: the
/// result is the shortest big-endian string of the number that `bytes` denotes.
#[verifier::external_body]
fn big_normalize(bytes: &[u8]) -> (r: Vec<u8>)
    ensures
        be_value(r@) == be_value(bytes@),
        r@.len() == be_len(be_value(bytes@)),
{
    BigUint::from_bytes_be(bytes).to_bytes_be()
}

/// Calls `BigUint`'s `+` on the numbers that the two big-endian strings denote:
/// the result is the shortest big-endian string of their sum.
#[verifier::external_body]
fn big_add(a: &[u8], b: &[u8]) -> (r: Vec<u8>)
    ensures
        be_value(r@) == be_value(a@) + be_value(b@),
        r@.len() == be_len(be_value(r@)),
{
    (BigUint::from_bytes_be(a) + BigUint::from_bytes_be(b)).to_bytes_be()
}

/// Calls `BigUint`'s `-`, which panics when the result would be negative: the
/// result is the shortest big-endian string of the difference.
#[verifier::external_body]
fn big_sub(a: &[u8], b: &[u8]) -> (r: Vec<u8>)
    requires
        be_value(a@) >= be_value(b@),
    ensures
        be_value(r@) == be_value(a@) - be_value(b@),
        r@.len() == be_len(be_value(r@)),
{
    (BigUint::from_bytes_be(a) - BigUint::from_bytes_be(b)).to_bytes_be()
}

/// Calls `BigUint`'s `<` on the numbers that the two big-endian strings denote.
#[verifier::external_body]
fn big_less(a: &[u8], b: &[u8]) -> (r: bool)
    ensures
        r == (be_value(a@) < be_value(b@)),
{
    BigUint::from_bytes_be(a) < BigUint::from_bytes_be(b)
}

/// Calls `BigUint::from` on a `u64` and `BigUint::to_bytes_be`.
#[verifier::external_body]
fn big_from_u64(value: u64) -> (r: Vec<u8>)
    ensures
        be_value(r@) == value,
        r@.len() == be_len(value as nat),
{
    BigUint::from(value).to_bytes_be()
}

impl View for Amount {
    type V = nat;

    open spec fn view(&self) -> nat {
        be_value(self.bytes@)
    }
}

impl Clone for Amount {
    fn clone(&self) -> (r: Self)
        ensures
            r.bytes@ == self.bytes@,
    {
        Amount { bytes: self.bytes.clone() }
    }
}

impl Amount {
    /// The bytes are the shortest form of the number.
    pub open spec fn wf(&self) -> bool {
        self.bytes@.len() == be_len(be_value(self.bytes@))
    }

    /// The number of bytes of the magnitude.
    pub open spec fn size(&self) -> nat {
        self.bytes@.len()
    }

    pub fn from_u64(value: u64) -> (r: Amount)
        ensures
            r.wf(),
            r@ == value,
    {
        Amount { bytes: big_from_u64(value) }
    }

    pub fn zero() -> (r: Amount)
        ensures
            r.wf(),
            r@ == 0,
    {
        Amount::from_u64(0)
    }

    /// The amount that a big-endian byte string denotes; leading zero bytes are
    /// dropped.
    pub fn from_be_bytes(bytes: &[u8]) -> (r: Amount)
        ensures
            r.wf(),
            r@ == be_value(bytes@),
    {
        Amount { bytes: big_normalize(bytes) }
    }

    pub fn plus(&self, other: &Amount) -> (r: Amount)
        ensures
            r.wf(),
            r@ == self@ + other@,
    {
        Amount { bytes: big_add(self.bytes.as_slice(), other.bytes.as_slice()) }
    }

    /// The difference, for an `other` that is not larger.
    pub fn minus(&self, other: &Amount) -> (r: Amount)
        requires
            other@ <= self@,
        ensures
            r.wf(),
            r@ == self@ - other@,
    {
        Amount { bytes: big_sub(self.bytes.as_slice(), other.bytes.as_slice()) }
    }

    pub fn less_than(&self, other: &Amount) -> (r: bool)
        ensures
            r == (self@ < other@),
    {
        big_less(self.bytes.as_slice(), other.bytes.as_slice())
    }

    pub fn same(&self, other: &Amount) -> (r: bool)
        ensures
            r == (self@ == other@),
    {
        !self.less_than(other) && !other.less_than(self)
    }

    pub fn is_zero(&self) -> (r: bool)
        ensures
            r == (self@ == 0),
    {
        let z = Amount::zero();
        self.same(&z)
    }
}

} // verus!
